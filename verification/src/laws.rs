//! The library-wide guarantees, each proved from the contracts and spec
//! functions the public operations are specified with.

use vstd::prelude::*;
use crate::base64_url::lemma_encode_injective;
use crate::base64_url::spec_encode;
use crate::client_data::parse_fuel;
use crate::client_data::scan_simple_string;
use crate::client_data::scan_simple_tail;
use crate::client_data::skip_ws;
use crate::client_data::spec_challenge_key;
use crate::client_data::spec_parse_client_data;
use crate::client_data::spec_type_key;
use crate::client_data::top_after_value;
use crate::client_data::top_members;
use crate::crypto::p256_verify_spec;
use crate::crypto::sha256_spec;
use crate::webauthn::spec_signed_message;
use crate::webauthn::spec_user_present;
use crate::webauthn::spec_user_verified;
use crate::webauthn::spec_verify;
use crate::webauthn::spec_webauthn_get_type;
use crate::webauthn::WebAuthnCredential;
use crate::spec_check_auth;
use crate::spec_remove_recovery;
use crate::spec_rotate_signer;
use crate::AccountContract;
use crate::AccountContractError;
use crate::CredentialSignature;
use crate::RecoveryError;

verus! {

/// Round trip of the challenge binding: a client data whose challenge field
/// holds the encoding of the signature payload is never rejected for a
/// challenge mismatch — the encoder and the comparison agree byte for byte.
pub proof fn lemma_challenge_round_trip(
    signature_payload: Seq<u8>,
    credential: WebAuthnCredential,
    public_key: Seq<u8>,
)
    requires
        spec_parse_client_data(credential.client_data_json@).is_some(),
        spec_parse_client_data(credential.client_data_json@).unwrap().1 == spec_encode(
            signature_payload,
        ),
    ensures
        spec_verify(signature_payload, credential, public_key) != Err::<
            (),
            AccountContractError,
        >(AccountContractError::WebAuthnInvalidChallenge),
{
}

/// Soundness of the checks: the verifier accepts only when every check
/// holds — in particular, only when the P-256 oracle accepts the signature
/// over the two-level hash that binds this very credential. An assertion
/// signed under a different key is accepted only if the oracle were to
/// accept it, which the curve's security rules out.
pub proof fn lemma_verify_sound(
    signature_payload: Seq<u8>,
    credential: WebAuthnCredential,
    public_key: Seq<u8>,
)
    requires
        spec_verify(signature_payload, credential, public_key) == Ok::<
            (),
            AccountContractError,
        >(()),
    ensures
        spec_parse_client_data(credential.client_data_json@).is_some(),
        spec_parse_client_data(credential.client_data_json@).unwrap().0
            == spec_webauthn_get_type(),
        spec_user_present(credential.authenticator_data@),
        spec_user_verified(credential.authenticator_data@),
        spec_parse_client_data(credential.client_data_json@).unwrap().1 == spec_encode(
            signature_payload,
        ),
        p256_verify_spec(
            public_key,
            sha256_spec(
                spec_signed_message(credential.authenticator_data@, credential.client_data_json@),
            ),
            credential.signature@,
        ),
{
}

/// Completeness: a validly constructed assertion — well-formed client data
/// of type `webauthn.get`, both flags set, the challenge encoding the
/// payload, and a signature the oracle accepts — is accepted.
pub proof fn lemma_verify_complete(
    signature_payload: Seq<u8>,
    credential: WebAuthnCredential,
    public_key: Seq<u8>,
)
    requires
        spec_parse_client_data(credential.client_data_json@).is_some(),
        spec_parse_client_data(credential.client_data_json@).unwrap().0
            == spec_webauthn_get_type(),
        spec_user_present(credential.authenticator_data@),
        spec_user_verified(credential.authenticator_data@),
        spec_parse_client_data(credential.client_data_json@).unwrap().1 == spec_encode(
            signature_payload,
        ),
        p256_verify_spec(
            public_key,
            sha256_spec(
                spec_signed_message(credential.authenticator_data@, credential.client_data_json@),
            ),
            credential.signature@,
        ),
    ensures
        spec_verify(signature_payload, credential, public_key) == Ok::<
            (),
            AccountContractError,
        >(()),
{
}

/// Order sensitivity of the flag checks: on an assertion whose client data
/// is well-formed with the right type, a cleared user-present flag yields
/// exactly the user-not-present error, and a set user-present flag with a
/// cleared user-verified flag yields exactly the user-not-verified error.
pub proof fn lemma_flag_order(
    signature_payload: Seq<u8>,
    credential: WebAuthnCredential,
    public_key: Seq<u8>,
)
    requires
        spec_parse_client_data(credential.client_data_json@).is_some(),
        spec_parse_client_data(credential.client_data_json@).unwrap().0
            == spec_webauthn_get_type(),
    ensures
        !spec_user_present(credential.authenticator_data@) ==> spec_verify(
            signature_payload,
            credential,
            public_key,
        ) == Err::<(), AccountContractError>(AccountContractError::WebAuthnUserNotPresent),
        spec_user_present(credential.authenticator_data@) && !spec_user_verified(
            credential.authenticator_data@,
        ) ==> spec_verify(signature_payload, credential, public_key) == Err::<
            (),
            AccountContractError,
        >(AccountContractError::WebAuthnUserNotVerified),
{
}

/// Tamper sensitivity, the provable core: on an assertion that passes every
/// earlier check, the verdict is exactly the oracle's verdict on the
/// presented signature bytes — a mutated signature is accepted only if the
/// oracle accepts the mutated bytes.
pub proof fn lemma_signature_decides(
    signature_payload: Seq<u8>,
    credential: WebAuthnCredential,
    public_key: Seq<u8>,
)
    requires
        spec_parse_client_data(credential.client_data_json@).is_some(),
        spec_parse_client_data(credential.client_data_json@).unwrap().0
            == spec_webauthn_get_type(),
        spec_user_present(credential.authenticator_data@),
        spec_user_verified(credential.authenticator_data@),
        spec_parse_client_data(credential.client_data_json@).unwrap().1 == spec_encode(
            signature_payload,
        ),
        !p256_verify_spec(
            public_key,
            sha256_spec(
                spec_signed_message(credential.authenticator_data@, credential.client_data_json@),
            ),
            credential.signature@,
        ),
    ensures
        spec_verify(signature_payload, credential, public_key) == Err::<
            (),
            AccountContractError,
        >(AccountContractError::WebAuthnInvalidSignature),
{
}

/// Cross-payload rejection: an assertion the verifier accepts for one
/// payload is rejected for any other payload, with exactly the challenge
/// mismatch error — the encoding is injective, so one challenge string
/// cannot bind two payloads.
pub proof fn lemma_cross_payload_rejection(
    payload_accepted: Seq<u8>,
    payload_other: Seq<u8>,
    credential: WebAuthnCredential,
    public_key: Seq<u8>,
)
    requires
        payload_accepted.len() == 32,
        payload_other.len() == 32,
        payload_accepted != payload_other,
        spec_verify(payload_accepted, credential, public_key) == Ok::<
            (),
            AccountContractError,
        >(()),
    ensures
        spec_verify(payload_other, credential, public_key) == Err::<
            (),
            AccountContractError,
        >(AccountContractError::WebAuthnInvalidChallenge),
{
    let ch = spec_parse_client_data(credential.client_data_json@).unwrap().1;
    if ch == spec_encode(payload_other) {
        lemma_encode_injective(payload_accepted, payload_other);
    }
}

/// Duplicate-field rejection: while the top-level members are scanned with a
/// `challenge` value already recorded, a member whose key is `challenge`
/// again refuses the whole document, whatever its value and whatever
/// follows; likewise for `type`.
pub proof fn lemma_duplicate_key_refused(
    s: Seq<u8>,
    i: int,
    ty: Option<Seq<u8>>,
    ch: Option<Seq<u8>>,
    fuel: nat,
)
    requires
        scan_simple_string(s, i).is_some(),
    ensures
        ch.is_some() && s.subrange(i + 1, scan_simple_string(s, i).unwrap() - 1)
            == spec_challenge_key() ==> top_members(s, i, ty, ch, fuel) is None,
        ty.is_some() && s.subrange(i + 1, scan_simple_string(s, i).unwrap() - 1) == spec_type_key()
            ==> top_members(s, i, ty, ch, fuel) is None,
{
    assert(spec_type_key().len() == 4);
    assert(spec_challenge_key().len() == 9);
}

/// A byte that may stand plainly inside an escape-free string value.
pub open spec fn plain_string_byte(c: u8) -> bool {
    c != 34 && c != 92 && c >= 32
}

/// A region of plain bytes closed by a quote scans as one string value.
proof fn lemma_scan_plain_region(s: Seq<u8>, a: int, b: int)
    requires
        0 <= a <= b < s.len(),
        forall|t: int| a <= t < b ==> plain_string_byte(s[t]),
        s[b] == 34,
    ensures
        scan_simple_tail(s, a) == Some(b + 1),
    decreases b - a,
{
    if a < b {
        assert(plain_string_byte(s[a]));
        lemma_scan_plain_region(s, a + 1, b);
    }
}

/// A client-data document of the usual shape whose `challenge` member
/// appears twice, holding `c1` and then `c2`.
pub open spec fn doc_with_two_challenges(c1: Seq<u8>, c2: Seq<u8>) -> Seq<u8> {
    seq![123u8, 34] + spec_type_key() + seq![34u8, 58, 34] + spec_webauthn_get_type() + seq![
        34u8,
        44,
        34,
    ] + spec_challenge_key() + seq![34u8, 58, 34] + c1 + seq![34u8, 44, 34] + spec_challenge_key()
        + seq![34u8, 58, 34] + c2 + seq![34u8, 125]
}

/// Duplicate-field rejection, constructively: for any challenge value of
/// plain bytes and any second value at all, the document that presents the
/// right type and then the `challenge` member twice is refused — whether or
/// not either value alone would have passed.
#[verifier::rlimit(80)]
pub proof fn lemma_duplicate_challenge_document_refused(c1: Seq<u8>, c2: Seq<u8>)
    requires
        forall|t: int| 0 <= t < c1.len() ==> plain_string_byte(c1[t]),
        c1.len() + c2.len() + 53 <= 1024,
    ensures
        spec_parse_client_data(doc_with_two_challenges(c1, c2)) is None,
{
    let s = doc_with_two_challenges(c1, c2);
    let n1 = c1.len() as int;
    let n2 = c2.len() as int;
    let base = 36 + n1;
    assert(s.len() == n1 + n2 + 53);
    // the opening brace and the first key
    assert(s[0] == 123 && s[1] == 34);
    assert(skip_ws(s, 0) == 0);
    assert(skip_ws(s, 1) == 1);
    assert(s[2] == 116 && s[3] == 121 && s[4] == 112 && s[5] == 101 && s[6] == 34);
    assert forall|t: int| 2 <= t < 6 implies plain_string_byte(s[t]) by {}
    lemma_scan_plain_region(s, 2, 6);
    assert(scan_simple_string(s, 1) == Some(7int));
    assert(s.subrange(2, 6) =~= spec_type_key());
    // colon, then the type value
    assert(s[7] == 58 && s[8] == 34);
    assert(skip_ws(s, 7) == 7);
    assert(skip_ws(s, 8) == 8);
    assert(s[9] == 119 && s[10] == 101 && s[11] == 98 && s[12] == 97 && s[13] == 117 && s[14]
        == 116 && s[15] == 104 && s[16] == 110 && s[17] == 46 && s[18] == 103 && s[19] == 101
        && s[20] == 116 && s[21] == 34);
    assert forall|t: int| 9 <= t < 21 implies plain_string_byte(s[t]) by {}
    lemma_scan_plain_region(s, 9, 21);
    assert(scan_simple_string(s, 8) == Some(22int));
    // comma, then the first challenge member
    assert(s[22] == 44 && s[23] == 34);
    assert(skip_ws(s, 22) == 22);
    assert(skip_ws(s, 23) == 23);
    assert(s[24] == 99 && s[25] == 104 && s[26] == 97 && s[27] == 108 && s[28] == 108 && s[29]
        == 101 && s[30] == 110 && s[31] == 103 && s[32] == 101 && s[33] == 34);
    assert forall|t: int| 24 <= t < 33 implies plain_string_byte(s[t]) by {}
    lemma_scan_plain_region(s, 24, 33);
    assert(scan_simple_string(s, 23) == Some(34int));
    assert(s.subrange(24, 33) =~= spec_challenge_key());
    assert(s.subrange(24, 33) != spec_type_key());
    assert(s[34] == 58 && s[35] == 34);
    assert(skip_ws(s, 34) == 34);
    assert(skip_ws(s, 35) == 35);
    // the first challenge value, of plain bytes
    assert(s[base] == 34);
    assert forall|t: int| 36 <= t < base implies plain_string_byte(s[t]) by {
        assert(s[t] == c1[t - 36]);
    }
    lemma_scan_plain_region(s, 36, base);
    assert(scan_simple_string(s, 35) == Some(base + 1));
    // comma, then the second challenge member
    assert(s[base + 1] == 44 && s[base + 2] == 34);
    assert(skip_ws(s, base + 1) == base + 1);
    assert(skip_ws(s, base + 2) == base + 2);
    assert(s[base + 3] == 99 && s[base + 4] == 104 && s[base + 5] == 97 && s[base + 6] == 108
        && s[base + 7] == 108 && s[base + 8] == 101 && s[base + 9] == 110 && s[base + 10] == 103
        && s[base + 11] == 101 && s[base + 12] == 34);
    assert forall|t: int| base + 3 <= t < base + 12 implies plain_string_byte(s[t]) by {}
    lemma_scan_plain_region(s, base + 3, base + 12);
    assert(scan_simple_string(s, base + 2) == Some(base + 13));
    assert(s.subrange(base + 3, base + 12) =~= spec_challenge_key());
    assert(s.subrange(base + 3, base + 12) != spec_type_key());
    assert(s[base + 13] == 58);
    assert(skip_ws(s, base + 13) == base + 13);
    // the scan refuses the document at the repeated key
    let fuel = parse_fuel(s);
    assert(fuel >= 5);
    assert(top_members(s, base + 2, Some(s.subrange(9, 21)), Some(s.subrange(36, base)), (fuel
        - 4) as nat) is None);
    assert(top_after_value(s, base + 1, Some(s.subrange(9, 21)), Some(s.subrange(36, base)), (fuel
        - 3) as nat) is None);
    assert(top_members(s, 23, Some(s.subrange(9, 21)), None, (fuel - 2) as nat) is None);
    assert(top_after_value(s, 22, Some(s.subrange(9, 21)), None, (fuel - 1) as nat) is None);
    assert(top_members(s, 1, None, None, fuel) is None);
    assert(spec_parse_client_data(s) is None);
}

/// Multi-signer cardinality: with a registry stored, presenting other than
/// exactly one signature object is rejected with the single-signature
/// error before any signer is resolved or any check runs.
pub proof fn lemma_single_signature_required(
    account: AccountContract,
    signature_payload: Seq<u8>,
    signatures: Seq<CredentialSignature>,
)
    requires
        account.signers.is_some(),
        signatures.len() != 1,
    ensures
        spec_check_auth(account, signature_payload, signatures) == Err::<
            (),
            AccountContractError,
        >(AccountContractError::SingleSignatureRequired),
{
}

/// Rotation takes effect atomically: after a completed rotation, every
/// authorization verdict is the assertion verdict under exactly the new
/// key — no previously registered key participates any longer.
pub proof fn lemma_rotation_governs_checks(
    account: AccountContract,
    new_signer: [u8; 65],
    signature_payload: Seq<u8>,
    signatures: Seq<CredentialSignature>,
)
    requires
        account.recovery.is_some(),
        signatures.len() == 1,
    ensures
        spec_rotate_signer(account, new_signer).1 == Ok::<(), RecoveryError>(()),
        spec_check_auth(spec_rotate_signer(account, new_signer).0, signature_payload, signatures)
            == spec_verify(signature_payload, signatures[0].credential, new_signer@),
{
}

/// Removing recovery twice: the first removal succeeds and clears the
/// identity; the second is refused with the recovery-not-set error, and
/// the state no longer changes.
pub proof fn lemma_remove_recovery_guard(account: AccountContract)
    requires
        account.recovery.is_some(),
    ensures
        spec_remove_recovery(account).1 == Ok::<(), RecoveryError>(()),
        spec_remove_recovery(spec_remove_recovery(account).0).1 == Err::<(), RecoveryError>(
            RecoveryError::RecoveryNotSet,
        ),
        spec_remove_recovery(spec_remove_recovery(account).0).0 == spec_remove_recovery(account).0,
{
}

} // verus!
