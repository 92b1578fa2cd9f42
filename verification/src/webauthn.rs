//! The WebAuthn assertion verifier: a pure decision, with no mutable state,
//! whether a client-supplied assertion authorizes a given signature payload
//! under a registered public key.

use vstd::prelude::*;
use crate::AccountContractError;
use crate::base64_url;
use crate::client_data;
use crate::crypto;

verus! {

/// Offset of the flag byte in the authenticator data, after the RP ID hash.
pub const AUTH_DATA_FLAG_OFFSET: usize = 32;

/// Flag bit for user presence.
pub const AUTH_DATA_FLAG_UP: u8 = 0x01;

/// Flag bit for user verification.
pub const AUTH_DATA_FLAG_UV: u8 = 0x04;

/// A WebAuthn assertion as supplied by the caller.
#[derive(Clone, Debug)]
pub struct WebAuthnCredential {
    /// The authenticator data bytes; the byte at the flag offset carries the
    /// user-present and user-verified bits.
    pub authenticator_data: Vec<u8>,
    /// The client data JSON text.
    pub client_data_json: Vec<u8>,
    /// The P-256 signature, `r` and `s` concatenated as 32 bytes each.
    pub signature: [u8; 64],
}

/// The bytes of the assertion operation type, `webauthn.get`.
pub open spec fn spec_webauthn_get_type() -> Seq<u8> {
    seq![119u8, 101, 98, 97, 117, 116, 104, 110, 46, 103, 101, 116]
}

/// The flag byte is present and carries the user-present bit.
pub open spec fn spec_user_present(authenticator_data: Seq<u8>) -> bool {
    authenticator_data.len() > AUTH_DATA_FLAG_OFFSET && authenticator_data[
        AUTH_DATA_FLAG_OFFSET as int] & AUTH_DATA_FLAG_UP == AUTH_DATA_FLAG_UP
}

/// The flag byte is present and carries the user-verified bit.
pub open spec fn spec_user_verified(authenticator_data: Seq<u8>) -> bool {
    authenticator_data.len() > AUTH_DATA_FLAG_OFFSET && authenticator_data[
        AUTH_DATA_FLAG_OFFSET as int] & AUTH_DATA_FLAG_UV == AUTH_DATA_FLAG_UV
}

/// The signed message: authenticator data followed by the client-data hash.
pub open spec fn spec_signed_message(authenticator_data: Seq<u8>, client_data_json: Seq<u8>) -> Seq<
    u8,
> {
    authenticator_data + crypto::sha256_spec(client_data_json)
}

/// The verifier's decision, check by check: client-data well-formedness, the
/// operation type, the user-present then the user-verified flag, the
/// challenge binding to the payload, and last the P-256 signature over the
/// two-level hash. The first failing check names the error.
pub open spec fn spec_verify(
    signature_payload: Seq<u8>,
    credential: WebAuthnCredential,
    public_key: Seq<u8>,
) -> Result<(), AccountContractError> {
    match client_data::spec_parse_client_data(credential.client_data_json@) {
        None => Err(AccountContractError::WebAuthnInvalidClientData),
        Some((ty, ch)) => {
            if ty != spec_webauthn_get_type() {
                Err(AccountContractError::WebAuthnInvalidType)
            } else if !spec_user_present(credential.authenticator_data@) {
                Err(AccountContractError::WebAuthnUserNotPresent)
            } else if !spec_user_verified(credential.authenticator_data@) {
                Err(AccountContractError::WebAuthnUserNotVerified)
            } else if ch != base64_url::spec_encode(signature_payload) {
                Err(AccountContractError::WebAuthnInvalidChallenge)
            } else if !crypto::p256_verify_spec(
                public_key,
                crypto::sha256_spec(
                    spec_signed_message(
                        credential.authenticator_data@,
                        credential.client_data_json@,
                    ),
                ),
                credential.signature@,
            ) {
                Err(AccountContractError::WebAuthnInvalidSignature)
            } else {
                Ok(())
            }
        },
    }
}

/// The operation type as bytes.
fn webauthn_get_type() -> (r: Vec<u8>)
    ensures
        r@ == spec_webauthn_get_type(),
{
    let mut v: Vec<u8> = Vec::new();
    v.push(119);
    v.push(101);
    v.push(98);
    v.push(97);
    v.push(117);
    v.push(116);
    v.push(104);
    v.push(110);
    v.push(46);
    v.push(103);
    v.push(101);
    v.push(116);
    proof {
        assert(v@ =~= spec_webauthn_get_type());
    }
    v
}

/// Checks a WebAuthn assertion: parses the client data, matches the
/// operation type, requires the user-present and user-verified flags,
/// binds the challenge to the payload, and verifies the signature over
/// `SHA-256(authenticator_data || SHA-256(client_data_json))`.
pub fn verify(
    signature_payload: &[u8; 32],
    credential: &WebAuthnCredential,
    public_key: &[u8; 65],
) -> (r: Result<(), AccountContractError>)
    ensures
        r == spec_verify(signature_payload@, *credential, public_key@),
{
    let parsed = client_data::parse_client_data(&credential.client_data_json);
    let (ty, ch) = match parsed {
        None => {
            return Err(AccountContractError::WebAuthnInvalidClientData);
        },
        Some(p) => p,
    };
    let expected_type = webauthn_get_type();
    if !client_data::bytes_eq(&ty, &expected_type) {
        return Err(AccountContractError::WebAuthnInvalidType);
    }
    if credential.authenticator_data.len() <= AUTH_DATA_FLAG_OFFSET {
        return Err(AccountContractError::WebAuthnUserNotPresent);
    }
    let flags = credential.authenticator_data[AUTH_DATA_FLAG_OFFSET];
    if flags & AUTH_DATA_FLAG_UP != AUTH_DATA_FLAG_UP {
        return Err(AccountContractError::WebAuthnUserNotPresent);
    }
    if flags & AUTH_DATA_FLAG_UV != AUTH_DATA_FLAG_UV {
        return Err(AccountContractError::WebAuthnUserNotVerified);
    }
    let expected_challenge = base64_url::encode(signature_payload);
    if !client_data::bytes_eq(&ch, &expected_challenge) {
        return Err(AccountContractError::WebAuthnInvalidChallenge);
    }
    let client_data_hash = crypto::sha256(&credential.client_data_json);
    let ad_len = credential.authenticator_data.len();
    let mut message: Vec<u8> = Vec::new();
    let mut q: usize = 0;
    while q < ad_len
        invariant
            q <= credential.authenticator_data@.len(),
            ad_len == credential.authenticator_data@.len(),
            message@ == credential.authenticator_data@.subrange(0, q as int),
        decreases ad_len - q,
    {
        message.push(credential.authenticator_data[q]);
        proof {
            assert(credential.authenticator_data@.subrange(0, q as int + 1)
                =~= credential.authenticator_data@.subrange(0, q as int).push(
                credential.authenticator_data@[q as int],
            ));
        }
        q = q + 1;
    }
    proof {
        assert(credential.authenticator_data@.subrange(
            0,
            credential.authenticator_data@.len() as int,
        ) =~= credential.authenticator_data@);
    }
    let h_len = client_data_hash.len();
    let mut p: usize = 0;
    while p < h_len
        invariant
            p <= client_data_hash@.len(),
            h_len == client_data_hash@.len(),
            message@ == credential.authenticator_data@ + client_data_hash@.subrange(0, p as int),
        decreases h_len - p,
    {
        message.push(client_data_hash[p]);
        proof {
            assert(credential.authenticator_data@ + client_data_hash@.subrange(0, p as int + 1)
                =~= (credential.authenticator_data@ + client_data_hash@.subrange(0, p as int)).push(
                client_data_hash@[p as int],
            ));
        }
        p = p + 1;
    }
    proof {
        assert(client_data_hash@.subrange(0, client_data_hash@.len() as int)
            =~= client_data_hash@);
        assert(message@ == spec_signed_message(
            credential.authenticator_data@,
            credential.client_data_json@,
        ));
    }
    let message_hash = crypto::sha256(&message);
    if !crypto::p256_verify(public_key, &message_hash, &credential.signature) {
        return Err(AccountContractError::WebAuthnInvalidSignature);
    }
    Ok(())
}

} // verus!
