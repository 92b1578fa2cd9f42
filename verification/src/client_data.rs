//! Full parse of the WebAuthn client-data text.
//!
//! The client data is one JSON object carrying, among other members, the
//! `type` and `challenge` strings. The whole input must be that one object
//! (surrounding whitespace aside); each of the two fields must be present
//! exactly once — a repeated `type` or `challenge` key refuses the document,
//! since different JSON consumers resolve duplicates differently. Keys and
//! the two extracted values must be escape-free strings; other member values
//! may be arbitrary JSON and are only checked, never interpreted.
//!
//! The spec-level parser below is the definition of a well-formed client
//! data; the executable parser is proved to agree with it exactly.

use vstd::prelude::*;

verus! {

/// Upper bound on the accepted client-data length, to bound parse cost.
pub const MAX_CLIENT_DATA_JSON_LEN: usize = 1024;

/// JSON whitespace: space, tab, line feed, carriage return.
pub open spec fn is_ws(c: u8) -> bool {
    c == 32 || c == 9 || c == 10 || c == 13
}

/// ASCII digit.
pub open spec fn is_digit(c: u8) -> bool {
    48 <= c <= 57
}

/// First position at or after `i` that does not hold whitespace.
pub open spec fn skip_ws(s: Seq<u8>, i: int) -> int
    decreases s.len() - i,
{
    if 0 <= i < s.len() && is_ws(s[i]) {
        skip_ws(s, i + 1)
    } else {
        i
    }
}

/// Scans the remainder of a string token: `i` is inside the quotes. An escape
/// is skipped as a byte pair; an unescaped control byte or a missing closing
/// quote refuses the token. Returns the position after the closing quote.
pub open spec fn scan_string_tail(s: Seq<u8>, i: int) -> Option<int>
    decreases s.len() - i,
{
    if !(0 <= i < s.len()) {
        None
    } else if s[i] == 34 {
        Some(i + 1)
    } else if s[i] == 92 {
        if i + 1 < s.len() {
            scan_string_tail(s, i + 2)
        } else {
            None
        }
    } else if s[i] < 32 {
        None
    } else {
        scan_string_tail(s, i + 1)
    }
}

/// A string token starting with its opening quote at `i`.
pub open spec fn scan_string(s: Seq<u8>, i: int) -> Option<int> {
    if 0 <= i < s.len() && s[i] == 34 {
        scan_string_tail(s, i + 1)
    } else {
        None
    }
}

/// Remainder of a string token that must contain no escapes: the raw bytes
/// between the quotes are the value.
pub open spec fn scan_simple_tail(s: Seq<u8>, i: int) -> Option<int>
    decreases s.len() - i,
{
    if !(0 <= i < s.len()) {
        None
    } else if s[i] == 34 {
        Some(i + 1)
    } else if s[i] == 92 || s[i] < 32 {
        None
    } else {
        scan_simple_tail(s, i + 1)
    }
}

/// An escape-free string token starting with its opening quote at `i`.
pub open spec fn scan_simple_string(s: Seq<u8>, i: int) -> Option<int> {
    if 0 <= i < s.len() && s[i] == 34 {
        scan_simple_tail(s, i + 1)
    } else {
        None
    }
}

/// First position at or after `i` that does not hold a digit.
pub open spec fn skip_digits(s: Seq<u8>, i: int) -> int
    decreases s.len() - i,
{
    if 0 <= i < s.len() && is_digit(s[i]) {
        skip_digits(s, i + 1)
    } else {
        i
    }
}

/// Optional fraction part at `i`: a dot must be followed by a digit.
pub open spec fn scan_frac(s: Seq<u8>, i: int) -> Option<int> {
    if 0 <= i < s.len() && s[i] == 46 {
        let d = skip_digits(s, i + 1);
        if d > i + 1 {
            Some(d)
        } else {
            None
        }
    } else {
        Some(i)
    }
}

/// Optional exponent part at `i`: `e`/`E`, an optional sign, then digits.
pub open spec fn scan_exp(s: Seq<u8>, i: int) -> Option<int> {
    if 0 <= i < s.len() && (s[i] == 101 || s[i] == 69) {
        let j = if i + 1 < s.len() && (s[i + 1] == 43 || s[i + 1] == 45) {
            i + 2
        } else {
            i + 1
        };
        let d = skip_digits(s, j);
        if d > j {
            Some(d)
        } else {
            None
        }
    } else {
        Some(i)
    }
}

/// A JSON number token starting at `i`; a leading zero admits no more digits.
pub open spec fn scan_number(s: Seq<u8>, i: int) -> Option<int> {
    let j = if 0 <= i < s.len() && s[i] == 45 {
        i + 1
    } else {
        i
    };
    if !(0 <= j < s.len() && is_digit(s[j])) {
        None
    } else {
        let k = if s[j] == 48 {
            j + 1
        } else {
            skip_digits(s, j)
        };
        match scan_frac(s, k) {
            None => None,
            Some(k2) => scan_exp(s, k2),
        }
    }
}

/// One of the literals `true`, `false`, `null` starting at `i`.
pub open spec fn scan_literal(s: Seq<u8>, i: int) -> Option<int> {
    if !(0 <= i < s.len()) {
        None
    } else if s[i] == 116 {
        if i + 4 <= s.len() && s[i + 1] == 114 && s[i + 2] == 117 && s[i + 3] == 101 {
            Some(i + 4)
        } else {
            None
        }
    } else if s[i] == 102 {
        if i + 5 <= s.len() && s[i + 1] == 97 && s[i + 2] == 108 && s[i + 3] == 115 && s[i + 4]
            == 101 {
            Some(i + 5)
        } else {
            None
        }
    } else if s[i] == 110 {
        if i + 4 <= s.len() && s[i + 1] == 117 && s[i + 2] == 108 && s[i + 3] == 108 {
            Some(i + 4)
        } else {
            None
        }
    } else {
        None
    }
}

/// Any JSON value starting at `i` (whitespace already skipped). The fuel
/// bounds the recursion; the top level grants plenty for any input within
/// the length bound.
pub open spec fn parse_value(s: Seq<u8>, i: int, fuel: nat) -> Option<int>
    decreases fuel,
{
    if fuel == 0 {
        None
    } else if !(0 <= i < s.len()) {
        None
    } else if s[i] == 34 {
        scan_string(s, i)
    } else if s[i] == 45 || is_digit(s[i]) {
        scan_number(s, i)
    } else if s[i] == 123 {
        parse_object_rest(s, skip_ws(s, i + 1), (fuel - 1) as nat)
    } else if s[i] == 91 {
        parse_array_rest(s, i, (fuel - 1) as nat)
    } else {
        scan_literal(s, i)
    }
}

/// Inside an object, after `{` and whitespace: an immediate `}` or members.
pub open spec fn parse_object_rest(s: Seq<u8>, i: int, fuel: nat) -> Option<int>
    decreases fuel,
{
    if fuel == 0 {
        None
    } else if !(0 <= i < s.len()) {
        None
    } else if s[i] == 125 {
        Some(i + 1)
    } else {
        parse_members(s, i, (fuel - 1) as nat)
    }
}

/// A member (key string, colon, value) starting at `i`, then either a comma
/// and further members or the closing `}`.
pub open spec fn parse_members(s: Seq<u8>, i: int, fuel: nat) -> Option<int>
    decreases fuel,
{
    if fuel == 0 {
        None
    } else {
        match scan_string(s, i) {
            None => None,
            Some(j) => {
                let k = skip_ws(s, j);
                if !(k < s.len() && s[k] == 58) {
                    None
                } else {
                    match parse_value(s, skip_ws(s, k + 1), (fuel - 1) as nat) {
                        None => None,
                        Some(m) => {
                            let n = skip_ws(s, m);
                            if n < s.len() && s[n] == 44 {
                                parse_members(s, skip_ws(s, n + 1), (fuel - 1) as nat)
                            } else if n < s.len() && s[n] == 125 {
                                Some(n + 1)
                            } else {
                                None
                            }
                        },
                    }
                }
            },
        }
    }
}

/// Inside an array, at the position of `[`: elements separated by commas up
/// to the closing `]`.
pub open spec fn parse_array_rest(s: Seq<u8>, i: int, fuel: nat) -> Option<int>
    decreases fuel,
{
    if fuel == 0 {
        None
    } else {
        let j = skip_ws(s, i + 1);
        if !(j < s.len()) {
            None
        } else if s[j] == 93 {
            Some(j + 1)
        } else {
            parse_elements(s, j, (fuel - 1) as nat)
        }
    }
}

/// An element starting at `i`, then either a comma and further elements or
/// the closing `]`.
pub open spec fn parse_elements(s: Seq<u8>, i: int, fuel: nat) -> Option<int>
    decreases fuel,
{
    if fuel == 0 {
        None
    } else {
        match parse_value(s, i, (fuel - 1) as nat) {
            None => None,
            Some(m) => {
                let n = skip_ws(s, m);
                if n < s.len() && s[n] == 44 {
                    parse_elements(s, skip_ws(s, n + 1), (fuel - 1) as nat)
                } else if n < s.len() && s[n] == 93 {
                    Some(n + 1)
                } else {
                    None
                }
            },
        }
    }
}

/// The bytes of the key `type`.
pub open spec fn spec_type_key() -> Seq<u8> {
    seq![116u8, 121, 112, 101]
}

/// The bytes of the key `challenge`.
pub open spec fn spec_challenge_key() -> Seq<u8> {
    seq![99u8, 104, 97, 108, 108, 101, 110, 103, 101]
}

/// Scans the top-level members from `i`, recording the `type` and `challenge`
/// values seen so far. A repeated `type` or `challenge` key, a key or
/// recorded value that is not an escape-free string, or a malformed member
/// refuses the document. Returns the position after the closing `}` and the
/// recorded values.
pub open spec fn top_members(
    s: Seq<u8>,
    i: int,
    ty: Option<Seq<u8>>,
    ch: Option<Seq<u8>>,
    fuel: nat,
) -> Option<(int, Option<Seq<u8>>, Option<Seq<u8>>)>
    decreases fuel,
{
    if fuel == 0 {
        None
    } else {
        match scan_simple_string(s, i) {
            None => None,
            Some(j) => {
                let key = s.subrange(i + 1, j - 1);
                let k = skip_ws(s, j);
                if !(k < s.len() && s[k] == 58) {
                    None
                } else {
                    let v = skip_ws(s, k + 1);
                    if key == spec_type_key() {
                        if ty.is_some() {
                            None
                        } else {
                            match scan_simple_string(s, v) {
                                None => None,
                                Some(m) => top_after_value(
                                    s,
                                    m,
                                    Some(s.subrange(v + 1, m - 1)),
                                    ch,
                                    (fuel - 1) as nat,
                                ),
                            }
                        }
                    } else if key == spec_challenge_key() {
                        if ch.is_some() {
                            None
                        } else {
                            match scan_simple_string(s, v) {
                                None => None,
                                Some(m) => top_after_value(
                                    s,
                                    m,
                                    ty,
                                    Some(s.subrange(v + 1, m - 1)),
                                    (fuel - 1) as nat,
                                ),
                            }
                        }
                    } else {
                        match parse_value(s, v, (fuel - 1) as nat) {
                            None => None,
                            Some(m) => top_after_value(s, m, ty, ch, (fuel - 1) as nat),
                        }
                    }
                }
            },
        }
    }
}

/// After a top-level member's value at `m`: a comma and further members or
/// the closing `}`.
pub open spec fn top_after_value(
    s: Seq<u8>,
    m: int,
    ty: Option<Seq<u8>>,
    ch: Option<Seq<u8>>,
    fuel: nat,
) -> Option<(int, Option<Seq<u8>>, Option<Seq<u8>>)>
    decreases fuel,
{
    if fuel == 0 {
        None
    } else {
        let n = skip_ws(s, m);
        if n < s.len() && s[n] == 44 {
            top_members(s, skip_ws(s, n + 1), ty, ch, (fuel - 1) as nat)
        } else if n < s.len() && s[n] == 125 {
            Some((n + 1, ty, ch))
        } else {
            None
        }
    }
}

/// Recursion allowance for an input of this length: generous for any input
/// within the length bound.
pub open spec fn parse_fuel(s: Seq<u8>) -> nat {
    2 * s.len() + 4
}

/// The well-formed client-data documents, and the `type` and `challenge`
/// values of each: one JSON object and nothing but whitespace around it,
/// within the length bound, holding each of the two fields exactly once.
pub open spec fn spec_parse_client_data(s: Seq<u8>) -> Option<(Seq<u8>, Seq<u8>)> {
    if s.len() > MAX_CLIENT_DATA_JSON_LEN {
        None
    } else {
        let i0 = skip_ws(s, 0);
        if !(i0 < s.len() && s[i0] == 123) {
            None
        } else {
            let i1 = skip_ws(s, i0 + 1);
            if !(i1 < s.len()) {
                None
            } else if s[i1] == 125 {
                None
            } else {
                match top_members(s, i1, None, None, parse_fuel(s)) {
                    None => None,
                    Some((end, ty_opt, ch_opt)) => {
                        if skip_ws(s, end) == s.len() {
                            match (ty_opt, ch_opt) {
                                (Some(ty), Some(ch)) => Some((ty, ch)),
                                _ => None,
                            }
                        } else {
                            None
                        }
                    },
                }
            }
        }
    }
}

/// Exec and spec scan positions agree.
spec fn pos_eq(r: Option<usize>, sp: Option<int>) -> bool {
    match (r, sp) {
        (Option::None, Option::None) => true,
        (Option::Some(a), Option::Some(b)) => a as int == b,
        _ => false,
    }
}

/// The value a recorded byte range stands for.
spec fn opt_range_view(s: Seq<u8>, o: Option<(usize, usize)>) -> Option<Seq<u8>> {
    match o {
        Option::None => None,
        Option::Some((a, b)) => Some(s.subrange(a as int, b as int)),
    }
}

/// A recorded byte range lies within the input.
spec fn opt_range_wf(s: Seq<u8>, o: Option<(usize, usize)>) -> bool {
    match o {
        Option::None => true,
        Option::Some((a, b)) => a <= b <= s.len(),
    }
}

/// Exec and spec top-level scans agree, and the exec ranges are in bounds.
spec fn top_res_eq(
    s: Seq<u8>,
    r: Option<(usize, Option<(usize, usize)>, Option<(usize, usize)>)>,
    sp: Option<(int, Option<Seq<u8>>, Option<Seq<u8>>)>,
) -> bool {
    match (r, sp) {
        (Option::None, Option::None) => true,
        (Option::Some((end, tyr, chr)), Option::Some(spr)) => {
            &&& end as int == spr.0
            &&& end <= s.len()
            &&& opt_range_wf(s, tyr)
            &&& opt_range_wf(s, chr)
            &&& opt_range_view(s, tyr) == spr.1
            &&& opt_range_view(s, chr) == spr.2
        },
        _ => false,
    }
}

/// First position at or after `i` without whitespace.
fn ws_end(s: &Vec<u8>, i: usize) -> (r: usize)
    requires
        i <= s@.len(),
    ensures
        r == skip_ws(s@, i as int),
        i <= r <= s@.len(),
{
    let mut j = i;
    while j < s.len() && (s[j] == 32 || s[j] == 9 || s[j] == 10 || s[j] == 13)
        invariant
            i <= j <= s@.len(),
            skip_ws(s@, i as int) == skip_ws(s@, j as int),
        decreases s@.len() - j,
    {
        j = j + 1;
    }
    j
}

/// First position at or after `i` without a digit.
fn digits_end(s: &Vec<u8>, i: usize) -> (r: usize)
    requires
        i <= s@.len(),
    ensures
        r == skip_digits(s@, i as int),
        i <= r <= s@.len(),
{
    let mut j = i;
    while j < s.len() && 48 <= s[j] && s[j] <= 57
        invariant
            i <= j <= s@.len(),
            skip_digits(s@, i as int) == skip_digits(s@, j as int),
        decreases s@.len() - j,
    {
        j = j + 1;
    }
    j
}

/// Scans a string token, escapes allowed.
fn scan_string_exec(s: &Vec<u8>, i: usize) -> (r: Option<usize>)
    requires
        i <= s@.len(),
    ensures
        pos_eq(r, scan_string(s@, i as int)),
        r.is_some() ==> i + 2 <= r.unwrap() <= s@.len(),
{
    if i >= s.len() || s[i] != 34 {
        return None;
    }
    let mut j = i + 1;
    loop
        invariant
            i + 1 <= j <= s@.len(),
            i < s@.len() && s@[i as int] == 34,
            scan_string_tail(s@, i as int + 1) == scan_string_tail(s@, j as int),
        decreases s@.len() - j,
    {
        if j >= s.len() {
            return None;
        }
        let c = s[j];
        if c == 34 {
            return Some(j + 1);
        }
        if c == 92 {
            if j + 1 >= s.len() {
                return None;
            }
            j = j + 2;
        } else if c < 32 {
            return None;
        } else {
            j = j + 1;
        }
    }
}

/// Scans an escape-free string token.
fn scan_simple_exec(s: &Vec<u8>, i: usize) -> (r: Option<usize>)
    requires
        i <= s@.len(),
    ensures
        pos_eq(r, scan_simple_string(s@, i as int)),
        r.is_some() ==> i + 2 <= r.unwrap() <= s@.len(),
{
    if i >= s.len() || s[i] != 34 {
        return None;
    }
    let mut j = i + 1;
    loop
        invariant
            i + 1 <= j <= s@.len(),
            i < s@.len() && s@[i as int] == 34,
            scan_simple_tail(s@, i as int + 1) == scan_simple_tail(s@, j as int),
        decreases s@.len() - j,
    {
        if j >= s.len() {
            return None;
        }
        let c = s[j];
        if c == 34 {
            return Some(j + 1);
        }
        if c == 92 || c < 32 {
            return None;
        }
        j = j + 1;
    }
}

/// Scans a number's optional fraction part.
fn scan_frac_exec(s: &Vec<u8>, i: usize) -> (r: Option<usize>)
    requires
        i <= s@.len(),
    ensures
        pos_eq(r, scan_frac(s@, i as int)),
        r.is_some() ==> i <= r.unwrap() <= s@.len(),
{
    if i < s.len() && s[i] == 46 {
        let d = digits_end(s, i + 1);
        if d > i + 1 {
            Some(d)
        } else {
            None
        }
    } else {
        Some(i)
    }
}

/// Scans a number's optional exponent part.
fn scan_exp_exec(s: &Vec<u8>, i: usize) -> (r: Option<usize>)
    requires
        i <= s@.len(),
    ensures
        pos_eq(r, scan_exp(s@, i as int)),
        r.is_some() ==> i <= r.unwrap() <= s@.len(),
{
    if i < s.len() && (s[i] == 101 || s[i] == 69) {
        let j = if i + 1 < s.len() && (s[i + 1] == 43 || s[i + 1] == 45) {
            i + 2
        } else {
            i + 1
        };
        let d = digits_end(s, j);
        if d > j {
            Some(d)
        } else {
            None
        }
    } else {
        Some(i)
    }
}

/// Scans a number token.
fn scan_number_exec(s: &Vec<u8>, i: usize) -> (r: Option<usize>)
    requires
        i <= s@.len(),
    ensures
        pos_eq(r, scan_number(s@, i as int)),
        r.is_some() ==> r.unwrap() <= s@.len(),
{
    let j = if i < s.len() && s[i] == 45 {
        i + 1
    } else {
        i
    };
    if j >= s.len() {
        return None;
    }
    let cj = s[j];
    if !(48 <= cj && cj <= 57) {
        return None;
    }
    let k = if cj == 48 {
        j + 1
    } else {
        digits_end(s, j)
    };
    match scan_frac_exec(s, k) {
        None => None,
        Some(k2) => scan_exp_exec(s, k2),
    }
}

/// Scans a `true`, `false` or `null` token.
fn scan_literal_exec(s: &Vec<u8>, i: usize) -> (r: Option<usize>)
    requires
        i <= s@.len(),
    ensures
        pos_eq(r, scan_literal(s@, i as int)),
        r.is_some() ==> r.unwrap() <= s@.len(),
{
    if i >= s.len() {
        return None;
    }
    let c = s[i];
    if c == 116 {
        if s.len() - i >= 4 && s[i + 1] == 114 && s[i + 2] == 117 && s[i + 3] == 101 {
            Some(i + 4)
        } else {
            None
        }
    } else if c == 102 {
        if s.len() - i >= 5 && s[i + 1] == 97 && s[i + 2] == 108 && s[i + 3] == 115 && s[i + 4]
            == 101 {
            Some(i + 5)
        } else {
            None
        }
    } else if c == 110 {
        if s.len() - i >= 4 && s[i + 1] == 117 && s[i + 2] == 108 && s[i + 3] == 108 {
            Some(i + 4)
        } else {
            None
        }
    } else {
        None
    }
}

/// Scans any JSON value.
fn parse_value_exec(s: &Vec<u8>, i: usize, fuel: usize) -> (r: Option<usize>)
    requires
        i <= s@.len(),
    ensures
        pos_eq(r, parse_value(s@, i as int, fuel as nat)),
        r.is_some() ==> r.unwrap() <= s@.len(),
    decreases fuel,
{
    if fuel == 0 {
        return None;
    }
    if i >= s.len() {
        return None;
    }
    let c = s[i];
    if c == 34 {
        scan_string_exec(s, i)
    } else if c == 45 || (48 <= c && c <= 57) {
        scan_number_exec(s, i)
    } else if c == 123 {
        let j = ws_end(s, i + 1);
        parse_object_rest_exec(s, j, fuel - 1)
    } else if c == 91 {
        parse_array_rest_exec(s, i, fuel - 1)
    } else {
        scan_literal_exec(s, i)
    }
}

/// Scans the inside of an object after `{` and whitespace.
fn parse_object_rest_exec(s: &Vec<u8>, i: usize, fuel: usize) -> (r: Option<usize>)
    requires
        i <= s@.len(),
    ensures
        pos_eq(r, parse_object_rest(s@, i as int, fuel as nat)),
        r.is_some() ==> r.unwrap() <= s@.len(),
    decreases fuel,
{
    if fuel == 0 {
        return None;
    }
    if i >= s.len() {
        return None;
    }
    if s[i] == 125 {
        return Some(i + 1);
    }
    parse_members_exec(s, i, fuel - 1)
}

/// Scans an object's members from the first key.
fn parse_members_exec(s: &Vec<u8>, i: usize, fuel: usize) -> (r: Option<usize>)
    requires
        i <= s@.len(),
    ensures
        pos_eq(r, parse_members(s@, i as int, fuel as nat)),
        r.is_some() ==> r.unwrap() <= s@.len(),
    decreases fuel,
{
    if fuel == 0 {
        return None;
    }
    let j = match scan_string_exec(s, i) {
        None => {
            return None;
        },
        Some(j) => j,
    };
    let k = ws_end(s, j);
    if k >= s.len() {
        return None;
    }
    if s[k] != 58 {
        return None;
    }
    let v = ws_end(s, k + 1);
    let m = match parse_value_exec(s, v, fuel - 1) {
        None => {
            return None;
        },
        Some(m) => m,
    };
    let n = ws_end(s, m);
    if n < s.len() && s[n] == 44 {
        let i2 = ws_end(s, n + 1);
        parse_members_exec(s, i2, fuel - 1)
    } else if n < s.len() && s[n] == 125 {
        Some(n + 1)
    } else {
        None
    }
}

/// Scans an array from its `[`.
fn parse_array_rest_exec(s: &Vec<u8>, i: usize, fuel: usize) -> (r: Option<usize>)
    requires
        i < s@.len(),
    ensures
        pos_eq(r, parse_array_rest(s@, i as int, fuel as nat)),
        r.is_some() ==> r.unwrap() <= s@.len(),
    decreases fuel,
{
    if fuel == 0 {
        return None;
    }
    proof {
        vstd::std_specs::vec::axiom_spec_len(s);
    }
    let j = ws_end(s, i + 1);
    if j >= s.len() {
        return None;
    }
    if s[j] == 93 {
        return Some(j + 1);
    }
    parse_elements_exec(s, j, fuel - 1)
}

/// Scans an array's elements from the first one.
fn parse_elements_exec(s: &Vec<u8>, i: usize, fuel: usize) -> (r: Option<usize>)
    requires
        i <= s@.len(),
    ensures
        pos_eq(r, parse_elements(s@, i as int, fuel as nat)),
        r.is_some() ==> r.unwrap() <= s@.len(),
    decreases fuel,
{
    if fuel == 0 {
        return None;
    }
    let m = match parse_value_exec(s, i, fuel - 1) {
        None => {
            return None;
        },
        Some(m) => m,
    };
    let n = ws_end(s, m);
    if n < s.len() && s[n] == 44 {
        let i2 = ws_end(s, n + 1);
        parse_elements_exec(s, i2, fuel - 1)
    } else if n < s.len() && s[n] == 93 {
        Some(n + 1)
    } else {
        None
    }
}

/// The key `type` as bytes.
fn type_key() -> (r: Vec<u8>)
    ensures
        r@ == spec_type_key(),
{
    let mut v: Vec<u8> = Vec::new();
    v.push(116);
    v.push(121);
    v.push(112);
    v.push(101);
    proof {
        assert(v@ =~= spec_type_key());
    }
    v
}

/// The key `challenge` as bytes.
fn challenge_key() -> (r: Vec<u8>)
    ensures
        r@ == spec_challenge_key(),
{
    let mut v: Vec<u8> = Vec::new();
    v.push(99);
    v.push(104);
    v.push(97);
    v.push(108);
    v.push(108);
    v.push(101);
    v.push(110);
    v.push(103);
    v.push(101);
    proof {
        assert(v@ =~= spec_challenge_key());
    }
    v
}

/// Whether two byte vectors hold the same bytes.
pub(crate) fn bytes_eq(a: &Vec<u8>, b: &Vec<u8>) -> (r: bool)
    ensures
        r <==> a@ == b@,
{
    if a.len() != b.len() {
        return false;
    }
    let mut q: usize = 0;
    while q < a.len()
        invariant
            q <= a@.len(),
            a@.len() == b@.len(),
            forall|t: int| 0 <= t < q ==> a@[t] == b@[t],
        decreases a@.len() - q,
    {
        if a[q] != b[q] {
            return false;
        }
        q = q + 1;
    }
    proof {
        assert(a@ =~= b@);
    }
    true
}

/// Whether the bytes of `s` in `a..b` equal `pat`.
fn range_matches(s: &Vec<u8>, a: usize, b: usize, pat: &Vec<u8>) -> (r: bool)
    requires
        a <= b <= s@.len(),
    ensures
        r <==> s@.subrange(a as int, b as int) == pat@,
{
    if b - a != pat.len() {
        proof {
            assert(s@.subrange(a as int, b as int).len() == b - a);
        }
        return false;
    }
    let n = pat.len();
    let mut q: usize = 0;
    while q < n
        invariant
            a <= b <= s@.len(),
            n == pat@.len(),
            b - a == n,
            q <= n,
            forall|t: int| 0 <= t < q ==> s@.subrange(a as int, b as int)[t] == pat@[t],
        decreases n - q,
    {
        proof {
            assert(s@.subrange(a as int, b as int)[q as int] == s@[a + q]);
        }
        if s[a + q] != pat[q] {
            return false;
        }
        q = q + 1;
    }
    proof {
        assert(s@.subrange(a as int, b as int) =~= pat@);
    }
    true
}

/// Copies the bytes of `s` in `a..b`.
fn copy_range(s: &Vec<u8>, a: usize, b: usize) -> (r: Vec<u8>)
    requires
        a <= b <= s@.len(),
    ensures
        r@ == s@.subrange(a as int, b as int),
{
    let mut r: Vec<u8> = Vec::new();
    let mut q = a;
    while q < b
        invariant
            a <= q <= b <= s@.len(),
            r@ == s@.subrange(a as int, q as int),
        decreases b - q,
    {
        r.push(s[q]);
        proof {
            assert(s@.subrange(a as int, q as int + 1) =~= s@.subrange(a as int, q as int).push(
                s@[q as int],
            ));
        }
        q = q + 1;
    }
    r
}

/// Scans the top-level members, recording `type` and `challenge` ranges.
fn top_members_exec(
    s: &Vec<u8>,
    i: usize,
    ty: Option<(usize, usize)>,
    ch: Option<(usize, usize)>,
    fuel: usize,
) -> (r: Option<(usize, Option<(usize, usize)>, Option<(usize, usize)>)>)
    requires
        i <= s@.len(),
        opt_range_wf(s@, ty),
        opt_range_wf(s@, ch),
    ensures
        top_res_eq(
            s@,
            r,
            top_members(s@, i as int, opt_range_view(s@, ty), opt_range_view(s@, ch), fuel as nat),
        ),
    decreases fuel,
{
    if fuel == 0 {
        return None;
    }
    let j = match scan_simple_exec(s, i) {
        None => {
            return None;
        },
        Some(j) => j,
    };
    let k = ws_end(s, j);
    if k >= s.len() {
        return None;
    }
    if s[k] != 58 {
        return None;
    }
    let v = ws_end(s, k + 1);
    let tkey = type_key();
    let ckey = challenge_key();
    if range_matches(s, i + 1, j - 1, &tkey) {
        if ty.is_some() {
            return None;
        }
        let m = match scan_simple_exec(s, v) {
            None => {
                return None;
            },
            Some(m) => m,
        };
        top_after_value_exec(s, m, Some((v + 1, m - 1)), ch, fuel - 1)
    } else if range_matches(s, i + 1, j - 1, &ckey) {
        if ch.is_some() {
            return None;
        }
        let m = match scan_simple_exec(s, v) {
            None => {
                return None;
            },
            Some(m) => m,
        };
        top_after_value_exec(s, m, ty, Some((v + 1, m - 1)), fuel - 1)
    } else {
        let m = match parse_value_exec(s, v, fuel - 1) {
            None => {
                return None;
            },
            Some(m) => m,
        };
        top_after_value_exec(s, m, ty, ch, fuel - 1)
    }
}

/// After a top-level member's value: a comma and more members, or `}`.
fn top_after_value_exec(
    s: &Vec<u8>,
    m: usize,
    ty: Option<(usize, usize)>,
    ch: Option<(usize, usize)>,
    fuel: usize,
) -> (r: Option<(usize, Option<(usize, usize)>, Option<(usize, usize)>)>)
    requires
        m <= s@.len(),
        opt_range_wf(s@, ty),
        opt_range_wf(s@, ch),
    ensures
        top_res_eq(
            s@,
            r,
            top_after_value(
                s@,
                m as int,
                opt_range_view(s@, ty),
                opt_range_view(s@, ch),
                fuel as nat,
            ),
        ),
    decreases fuel,
{
    if fuel == 0 {
        return None;
    }
    let n = ws_end(s, m);
    if n < s.len() && s[n] == 44 {
        let i2 = ws_end(s, n + 1);
        top_members_exec(s, i2, ty, ch, fuel - 1)
    } else if n < s.len() && s[n] == 125 {
        Some((n + 1, ty, ch))
    } else {
        None
    }
}

/// Parses a client-data document, returning its `type` and `challenge`
/// values, or nothing where the document is refused.
pub fn parse_client_data(s: &Vec<u8>) -> (r: Option<(Vec<u8>, Vec<u8>)>)
    ensures
        r.is_some() == spec_parse_client_data(s@).is_some(),
        r.is_some() ==> r.unwrap().0@ == spec_parse_client_data(s@).unwrap().0,
        r.is_some() ==> r.unwrap().1@ == spec_parse_client_data(s@).unwrap().1,
{
    if s.len() > MAX_CLIENT_DATA_JSON_LEN {
        return None;
    }
    let i0 = ws_end(s, 0);
    if i0 >= s.len() {
        return None;
    }
    if s[i0] != 123 {
        return None;
    }
    let i1 = ws_end(s, i0 + 1);
    if i1 >= s.len() {
        return None;
    }
    if s[i1] == 125 {
        return None;
    }
    let fuel = 2 * s.len() + 4;
    match top_members_exec(s, i1, None, None, fuel) {
        None => None,
        Some((end, ty_r, ch_r)) => {
            let e2 = ws_end(s, end);
            if e2 != s.len() {
                return None;
            }
            match (ty_r, ch_r) {
                (Some((ta, tb)), Some((ca, cb))) => Some(
                    (copy_range(s, ta, tb), copy_range(s, ca, cb)),
                ),
                _ => None,
            }
        },
    }
}

} // verus!
