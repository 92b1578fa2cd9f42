//! Fixed-shape base64url codec: a 32-byte digest becomes exactly 43 bytes of
//! the unpadded URL-safe alphabet. The encoder is used only to build the
//! expected challenge string for byte-exact comparison; nothing is ever
//! decoded from attacker input.

use vstd::prelude::*;

verus! {

/// Number of bytes in an encoded challenge.
pub const ENCODED_CHALLENGE_LEN: usize = 43;

/// Byte of the URL-safe base64 alphabet at index `v` (`v < 64`):
/// `A`..`Z`, `a`..`z`, `0`..`9`, `-`, `_`.
pub open spec fn b64url_alphabet(v: u8) -> u8 {
    if v < 26 {
        (65 + v) as u8
    } else if v < 52 {
        (71 + v) as u8
    } else if v < 62 {
        (v - 4) as u8
    } else if v == 62 {
        45
    } else {
        95
    }
}

/// The 6-bit group at position `i` of the bit stream formed by `input`, most
/// significant bit first; bits past the end of the input read as zero.
pub open spec fn sextet(input: Seq<u8>, i: int) -> u8 {
    let g = i / 4;
    if i % 4 == 0 {
        input[3 * g] >> 2u8
    } else if i % 4 == 1 {
        ((input[3 * g] & 3) << 4u8) | (input[3 * g + 1] >> 4u8)
    } else if i % 4 == 2 {
        if 3 * g + 2 < input.len() {
            ((input[3 * g + 1] & 15) << 2u8) | (input[3 * g + 2] >> 6u8)
        } else {
            (input[3 * g + 1] & 15) << 2u8
        }
    } else {
        input[3 * g + 2] & 63
    }
}

/// The 43-byte base64url encoding of a 32-byte input.
pub open spec fn spec_encode(input: Seq<u8>) -> Seq<u8> {
    Seq::new(43, |i: int| b64url_alphabet(sextet(input, i)))
}

/// Maps a 6-bit value to its alphabet byte.
fn alphabet_char(v: u8) -> (c: u8)
    requires
        v < 64,
    ensures
        c == b64url_alphabet(v),
{
    if v < 26 {
        65 + v
    } else if v < 52 {
        71 + v
    } else if v < 62 {
        v - 4
    } else if v == 62 {
        45
    } else {
        95
    }
}

/// Encodes a 32-byte digest as its unpadded 43-byte base64url form.
pub fn encode(input: &[u8; 32]) -> (r: Vec<u8>)
    ensures
        r@ == spec_encode(input@),
        r@.len() == 43,
{
    let mut out: Vec<u8> = Vec::new();
    let mut g: usize = 0;
    while g < 10
        invariant
            g <= 10,
            out@.len() == 4 * g,
            forall|k: int| 0 <= k < 4 * g ==> out@[k] == spec_encode(input@)[k],
        decreases 10 - g,
    {
        let b0 = input[3 * g];
        let b1 = input[3 * g + 1];
        let b2 = input[3 * g + 2];
        assert(b0 >> 2u8 < 64 && ((b0 & 3) << 4u8) | (b1 >> 4u8) < 64 && ((b1 & 15) << 2u8) | (
        b2 >> 6u8) < 64 && b2 & 63 < 64) by (bit_vector);
        out.push(alphabet_char(b0 >> 2));
        out.push(alphabet_char(((b0 & 3) << 4) | (b1 >> 4)));
        out.push(alphabet_char(((b1 & 15) << 2) | (b2 >> 6)));
        out.push(alphabet_char(b2 & 63));
        proof {
            let i0 = 4 * g as int;
            assert(i0 / 4 == g as int && i0 % 4 == 0);
            assert((i0 + 1) / 4 == g as int && (i0 + 1) % 4 == 1);
            assert((i0 + 2) / 4 == g as int && (i0 + 2) % 4 == 2);
            assert((i0 + 3) / 4 == g as int && (i0 + 3) % 4 == 3);
        }
        g = g + 1;
    }
    let b30 = input[30];
    let b31 = input[31];
    assert(b30 >> 2u8 < 64 && ((b30 & 3) << 4u8) | (b31 >> 4u8) < 64 && ((b31 & 15) << 2u8) < 64)
        by (bit_vector);
    out.push(alphabet_char(b30 >> 2));
    out.push(alphabet_char(((b30 & 3) << 4) | (b31 >> 4)));
    out.push(alphabet_char((b31 & 15) << 2));
    proof {
        assert(40int / 4 == 10 && 40int % 4 == 0);
        assert(41int / 4 == 10 && 41int % 4 == 1);
        assert(42int / 4 == 10 && 42int % 4 == 2);
        assert(out@ =~= spec_encode(input@));
    }
    out
}

/// Every sextet is a 6-bit value.
proof fn lemma_sextet_bound(s: Seq<u8>, i: int)
    ensures
        sextet(s, i) < 64,
{
    let g = i / 4;
    let b0 = s[3 * g];
    let b1 = s[3 * g + 1];
    let b2 = s[3 * g + 2];
    assert(b0 >> 2u8 < 64) by (bit_vector);
    assert(((b0 & 3) << 4u8) | (b1 >> 4u8) < 64) by (bit_vector);
    assert(((b1 & 15) << 2u8) | (b2 >> 6u8) < 64) by (bit_vector);
    assert((b1 & 15) << 2u8 < 64) by (bit_vector);
    assert(b2 & 63 < 64) by (bit_vector);
}

/// The alphabet maps distinct 6-bit values to distinct bytes.
proof fn lemma_alphabet_injective(v1: u8, v2: u8)
    requires
        v1 < 64,
        v2 < 64,
        b64url_alphabet(v1) == b64url_alphabet(v2),
    ensures
        v1 == v2,
{
}

/// Three bytes are recovered from their four sextets.
proof fn lemma_group_decode(p0: u8, p1: u8, p2: u8, q0: u8, q1: u8, q2: u8)
    by (bit_vector)
    requires
        p0 >> 2 == q0 >> 2,
        ((p0 & 3) << 4) | (p1 >> 4) == ((q0 & 3) << 4) | (q1 >> 4),
        ((p1 & 15) << 2) | (p2 >> 6) == ((q1 & 15) << 2) | (q2 >> 6),
        p2 & 63 == q2 & 63,
    ensures
        p0 == q0,
        p1 == q1,
        p2 == q2,
{
}

/// The final two bytes are recovered from their three sextets.
proof fn lemma_tail_decode(p0: u8, p1: u8, q0: u8, q1: u8)
    by (bit_vector)
    requires
        p0 >> 2 == q0 >> 2,
        ((p0 & 3) << 4) | (p1 >> 4) == ((q0 & 3) << 4) | (q1 >> 4),
        (p1 & 15) << 2 == (q1 & 15) << 2,
    ensures
        p0 == q0,
        p1 == q1,
{
}

/// Distinct 32-byte inputs have distinct encodings.
pub proof fn lemma_encode_injective(a: Seq<u8>, b: Seq<u8>)
    requires
        a.len() == 32,
        b.len() == 32,
        spec_encode(a) == spec_encode(b),
    ensures
        a == b,
{
    assert forall|i: int| 0 <= i < 43 implies sextet(a, i) == sextet(b, i) by {
        assert(spec_encode(a)[i] == b64url_alphabet(sextet(a, i)));
        assert(spec_encode(b)[i] == b64url_alphabet(sextet(b, i)));
        assert(spec_encode(a)[i] == spec_encode(b)[i]);
        lemma_sextet_bound(a, i);
        lemma_sextet_bound(b, i);
        lemma_alphabet_injective(sextet(a, i), sextet(b, i));
    }
    assert forall|j: int| 0 <= j < 32 implies a[j] == b[j] by {
        if j < 30 {
            let g = j / 3;
            assert(0 <= g < 10);
            assert(j == 3 * g + j % 3);
            let i0 = 4 * g;
            assert(i0 / 4 == g && i0 % 4 == 0);
            assert((i0 + 1) / 4 == g && (i0 + 1) % 4 == 1);
            assert((i0 + 2) / 4 == g && (i0 + 2) % 4 == 2);
            assert((i0 + 3) / 4 == g && (i0 + 3) % 4 == 3);
            assert(0 <= i0 && i0 + 3 < 43);
            assert(sextet(a, i0) == sextet(b, i0));
            assert(sextet(a, i0 + 1) == sextet(b, i0 + 1));
            assert(sextet(a, i0 + 2) == sextet(b, i0 + 2));
            assert(sextet(a, i0 + 3) == sextet(b, i0 + 3));
            lemma_group_decode(a[3 * g], a[3 * g + 1], a[3 * g + 2], b[3 * g], b[3 * g + 1], b[3 * g
                + 2]);
        } else {
            assert(40int / 4 == 10 && 40int % 4 == 0);
            assert(41int / 4 == 10 && 41int % 4 == 1);
            assert(42int / 4 == 10 && 42int % 4 == 2);
            assert(sextet(a, 40) == sextet(b, 40));
            assert(sextet(a, 41) == sextet(b, 41));
            assert(sextet(a, 42) == sextet(b, 42));
            lemma_tail_decode(a[30], a[31], b[30], b[31]);
        }
    }
    assert(a =~= b);
}

} // verus!
