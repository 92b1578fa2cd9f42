//! Authorization core of a WebAuthn-backed smart account.
//!
//! The library verifies WebAuthn assertions against registered P-256 public
//! keys, keeps the per-account signer registry, and runs the recovery state
//! machine that can rotate the active signer set without an assertion. All
//! state is an explicit per-account value passed into every operation; the
//! host that persists it and authenticates callers stays outside.

use vstd::prelude::*;

pub mod base64_url;
pub mod client_data;
mod crypto;
pub mod laws;
pub mod webauthn;

pub use crypto::p256_verify_spec;
pub use crypto::sha256_spec;
pub use webauthn::verify;
pub use webauthn::WebAuthnCredential;

verus! {

/// Names the slots of an account's persistent state.
#[derive(Clone, Copy, PartialEq, Eq, Debug)]
pub enum DataKey {
    Admin,
    Signer,
    Recovery,
}

/// Every way an authorization attempt can be rejected. Each check owns one
/// error; no failure is folded into another.
#[derive(Clone, Copy, PartialEq, Eq, Debug)]
pub enum AccountContractError {
    /// No signer registry is stored for the account.
    MissingSigner,
    /// The named credential is not in the registry.
    UnknownSigner,
    /// Other than exactly one signature object was presented.
    SingleSignatureRequired,
    /// The client data is not a well-formed client-data document.
    WebAuthnInvalidClientData,
    /// The client data's type is not `webauthn.get`.
    WebAuthnInvalidType,
    /// The user-present flag is unset (or the flag byte is missing).
    WebAuthnUserNotPresent,
    /// The user-verified flag is unset.
    WebAuthnUserNotVerified,
    /// The challenge does not encode the signature payload.
    WebAuthnInvalidChallenge,
    /// The P-256 signature does not verify.
    WebAuthnInvalidSignature,
}

/// Failures of the recovery interface.
#[derive(Clone, Copy, PartialEq, Eq, Debug)]
pub enum RecoveryError {
    /// No recovery identity is configured.
    RecoveryNotSet,
}

/// An opaque host-level identity, carried as plain bytes.
#[derive(Clone, Copy, PartialEq, Eq, Debug)]
pub struct Address {
    pub bytes: [u8; 32],
}

/// One registry entry: an authenticator-supplied credential identifier and
/// the 65-byte uncompressed P-256 public key enrolled under it.
#[derive(Clone, Debug)]
pub struct SignerEntry {
    pub credential_id: Vec<u8>,
    pub public_key: [u8; 65],
}

/// The registered signers, in one of the two supported shapes.
#[derive(Clone, Debug)]
pub enum SignerRegistry {
    /// Exactly one signer; lookup is unconditional.
    Single { public_key: [u8; 65] },
    /// A set of signers keyed by credential identifier.
    Multi { entries: Vec<SignerEntry> },
}

/// One signature object presented by a caller: the credential it claims and
/// the assertion itself. A single-signer account ignores the claimed
/// credential identifier.
#[derive(Clone, Debug)]
pub struct CredentialSignature {
    pub credential_id: Vec<u8>,
    pub credential: WebAuthnCredential,
}

/// The per-account state: the three storage slots.
#[derive(Clone, Debug)]
pub struct AccountContract {
    pub admin: Option<Address>,
    pub signers: Option<SignerRegistry>,
    pub recovery: Option<Address>,
}

impl SignerRegistry {
    /// A registry holds at least one signer, each credential identifier at
    /// most once.
    pub open spec fn well_formed(self) -> bool {
        match self {
            SignerRegistry::Single { .. } => true,
            SignerRegistry::Multi { entries } => entries@.len() >= 1 && forall|i: int, j: int|
                0 <= i < j < entries@.len() ==> entries@[i].credential_id@ != entries@[
                j].credential_id@,
        }
    }
}

/// The public key registered under `credential_id`, if any.
pub open spec fn spec_lookup(entries: Seq<SignerEntry>, credential_id: Seq<u8>) -> Option<
    [u8; 65],
>
    decreases entries.len(),
{
    if entries.len() == 0 {
        None
    } else if entries[0].credential_id@ == credential_id {
        Some(entries[0].public_key)
    } else {
        spec_lookup(entries.drop_first(), credential_id)
    }
}

/// Outcome of an authorization attempt. The missing registry is reported
/// first, a wrong signature count next, an unresolved signer after that,
/// and the assertion itself last.
pub open spec fn spec_check_auth(
    account: AccountContract,
    signature_payload: Seq<u8>,
    signatures: Seq<CredentialSignature>,
) -> Result<(), AccountContractError> {
    match account.signers {
        None => Err(AccountContractError::MissingSigner),
        Some(registry) => {
            if signatures.len() != 1 {
                Err(AccountContractError::SingleSignatureRequired)
            } else {
                match registry {
                    SignerRegistry::Single { public_key } => webauthn::spec_verify(
                        signature_payload,
                        signatures[0].credential,
                        public_key@,
                    ),
                    SignerRegistry::Multi { entries } => match spec_lookup(
                        entries@,
                        signatures[0].credential_id@,
                    ) {
                        None => Err(AccountContractError::UnknownSigner),
                        Some(public_key) => webauthn::spec_verify(
                            signature_payload,
                            signatures[0].credential,
                            public_key@,
                        ),
                    },
                }
            }
        },
    }
}

/// State and verdict after a signer rotation: with a recovery identity
/// configured, the new key becomes the sole registered signer in one write;
/// without one, nothing changes.
pub open spec fn spec_rotate_signer(account: AccountContract, new_signer: [u8; 65]) -> (
    AccountContract,
    Result<(), RecoveryError>,
) {
    if account.recovery.is_some() {
        (
            (AccountContract {
                signers: Some(SignerRegistry::Single { public_key: new_signer }),
                ..account
            }),
            Ok(()),
        )
    } else {
        (account, Err(RecoveryError::RecoveryNotSet))
    }
}

/// State and verdict after removing the recovery identity: configured
/// becomes absent; absent stays absent and is refused.
pub open spec fn spec_remove_recovery(account: AccountContract) -> (
    AccountContract,
    Result<(), RecoveryError>,
) {
    if account.recovery.is_some() {
        ((AccountContract { recovery: None, ..account }), Ok(()))
    } else {
        (account, Err(RecoveryError::RecoveryNotSet))
    }
}

/// Recovery interface: rotating the signer set under the authority of the
/// recovery identity. The host authenticates the recovery identity before
/// calling in; the library performs the state transition.
pub trait Recovery {
    fn rotate_signer(&mut self, new_signer: &[u8; 65]) -> Result<(), RecoveryError>;
}

/// Finds `credential_id` in the entries.
fn lookup(entries: &Vec<SignerEntry>, credential_id: &Vec<u8>) -> (r: Option<[u8; 65]>)
    ensures
        r == spec_lookup(entries@, credential_id@),
{
    let mut q: usize = 0;
    proof {
        assert(entries@.skip(0) =~= entries@);
    }
    while q < entries.len()
        invariant
            q <= entries@.len(),
            spec_lookup(entries@, credential_id@) == spec_lookup(
                entries@.skip(q as int),
                credential_id@,
            ),
        decreases entries@.len() - q,
    {
        if client_data::bytes_eq(&entries[q].credential_id, credential_id) {
            return Some(entries[q].public_key);
        }
        proof {
            assert(entries@.skip(q as int).drop_first() =~= entries@.skip(q as int + 1));
        }
        q = q + 1;
    }
    None
}

impl AccountContract {
    /// Builds the account state the construction interface persists: the
    /// optional admin, the initial signers, the optional recovery identity.
    pub fn __constructor(
        admin: Option<Address>,
        signers: SignerRegistry,
        recovery: Option<Address>,
    ) -> (account: AccountContract)
        requires
            signers.well_formed(),
        ensures
            account.admin == admin,
            account.signers == Some(signers),
            account.recovery == recovery,
    {
        AccountContract { admin, signers: Some(signers), recovery }
    }

    /// Whether the named state slot is populated.
    pub fn has_entry(&self, key: DataKey) -> (r: bool)
        ensures
            key == DataKey::Admin ==> r == self.admin.is_some(),
            key == DataKey::Signer ==> r == self.signers.is_some(),
            key == DataKey::Recovery ==> r == self.recovery.is_some(),
    {
        match key {
            DataKey::Admin => self.admin.is_some(),
            DataKey::Signer => self.signers.is_some(),
            DataKey::Recovery => self.recovery.is_some(),
        }
    }

    /// The authorization entry point: resolves the registered signer the
    /// single presented signature claims and delegates to the assertion
    /// verifier, propagating its verdict unchanged.
    pub fn __check_auth(
        &self,
        signature_payload: &[u8; 32],
        signatures: &Vec<CredentialSignature>,
    ) -> (r: Result<(), AccountContractError>)
        ensures
            r == spec_check_auth(*self, signature_payload@, signatures@),
    {
        let registry = match &self.signers {
            None => {
                return Err(AccountContractError::MissingSigner);
            },
            Some(registry) => registry,
        };
        if signatures.len() != 1 {
            return Err(AccountContractError::SingleSignatureRequired);
        }
        let presented = &signatures[0];
        match registry {
            SignerRegistry::Single { public_key } => webauthn::verify(
                signature_payload,
                &presented.credential,
                public_key,
            ),
            SignerRegistry::Multi { entries } => {
                let public_key = match lookup(entries, &presented.credential_id) {
                    None => {
                        return Err(AccountContractError::UnknownSigner);
                    },
                    Some(public_key) => public_key,
                };
                webauthn::verify(signature_payload, &presented.credential, &public_key)
            },
        }
    }

    /// The configured recovery identity, if any.
    pub fn recovery_address(&self) -> (r: Option<Address>)
        ensures
            r == self.recovery,
    {
        self.recovery
    }

    /// Clears the recovery identity. The caller must have passed the normal
    /// authorization path first: recovery is removed only by whoever controls
    /// the account. Irreversible — once absent, no recovery path exists.
    pub fn remove_recovery(&mut self) -> (r: Result<(), RecoveryError>)
        ensures
            (*final(self), r) == spec_remove_recovery(*old(self)),
    {
        if self.recovery.is_some() {
            self.recovery = None;
            Ok(())
        } else {
            Err(RecoveryError::RecoveryNotSet)
        }
    }
}

impl Recovery for AccountContract {
    /// Installs `new_signer` as the sole registered signer, in one write to
    /// the signer slot, invalidating every previously registered key. Owed
    /// success exactly when a recovery identity is configured.
    fn rotate_signer(&mut self, new_signer: &[u8; 65]) -> (r: Result<(), RecoveryError>)
        ensures
            (*final(self), r) == spec_rotate_signer(*old(self), *new_signer),
    {
        if self.recovery.is_some() {
            self.signers = Some(SignerRegistry::Single { public_key: *new_signer });
            Ok(())
        } else {
            Err(RecoveryError::RecoveryNotSet)
        }
    }
}

} // verus!
