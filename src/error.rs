//! Failure kinds of the library, one variant per kind.
use vstd::prelude::*;

verus! {

/// Why a runtime configuration document was refused.
#[derive(Debug, PartialEq, Eq)]
pub enum EnclaveConfigError {
    /// The document lists no provider.
    NoProviders,
    /// A provider's verification key is not hex, or not a valid Ed25519 key.
    InvalidProviderKey { provider: String, error: String },
    /// The document is neither YAML nor JSON of the expected shape.
    InvalidFormat(String),
}

/// Every failure that reaches the service boundary.
#[derive(Debug, PartialEq, Eq)]
pub enum EnclaveError {
    /// A failure described by text alone (transport, plumbing).
    GenericError(String),
    /// The runtime configuration has already been committed.
    AlreadyInitialized,
    /// No runtime configuration has been committed yet.
    NotInitialized,
    /// The submission names a provider that the registry does not hold.
    UnknownProvider(String),
    /// The provider requires a signature and none was given.
    MissingSignature,
    /// The signature text is not hex, or not 64 bytes.
    InvalidSignatureEncoding,
    /// The signature does not verify against the provider's key.
    SignatureMismatch,
    /// The content aggregator could not be reached or refused the request.
    FetchFailed(String),
    /// The fetched content does not hash to the claimed value.
    HashMismatch { expected: String, computed: String },
    /// Threshold decryption produced no usable secret.
    DecryptFailed(String),
    /// The decrypted configuration is not UTF-8 text.
    InvalidUtf8,
    /// The runtime configuration was refused.
    InvalidConfig(EnclaveConfigError),
    /// The trust-anchor configuration was refused.
    InvalidTrustAnchor { key_servers: usize, public_keys: usize },
    /// No key identifier was given for the authorization template.
    NoKeyIds,
    /// More key identifiers than a transaction input index can address.
    TooManyKeyIds,
    /// A key identifier is too long to encode.
    InvalidKeyId,
    /// A Move identifier of the policy call is not well formed.
    InvalidIdentifier(String),
}

} // verus!
