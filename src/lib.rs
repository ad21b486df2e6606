//! Trust core of an attested enclave service: the two-phase bootstrap that
//! installs the runtime configuration, and the pipeline that verifies
//! provider submissions before the enclave signs them.
pub mod error;
pub mod hex;
pub mod config;
pub mod kyc;
pub mod ptb;
pub mod bootstrap;
pub mod envelope;

pub use error::{EnclaveConfigError, EnclaveError};
pub use config::{FileKycConfig, KycProviderConfig, KycRuntime, ProviderRuntime};
pub use hex::normalize_hex;
pub use kyc::{
    IntentMessage, IntentScope, KycRequestPayload, KycResponsePayload, canonical_message, validate_doc_hash, verify_provider_signature, walrus_cid, intent_timestamp,
};
pub use bootstrap::{
    CompleteParameterLoadResponse, InitParameterLoadResponse, RuntimeConfigStore, SealConfig,
    SealConfigRaw, complete_parameter_load, init_parameter_load,
};
