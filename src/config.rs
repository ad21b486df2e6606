//! Runtime configuration: the document that bootstrap decrypts (or that a
//! local file holds), its validation into the provider registry, and lookups.
use vstd::prelude::*;
use fastcrypto::ed25519::Ed25519PublicKey;
use fastcrypto::traits::ToFromBytes;
use crate::error::EnclaveConfigError;
use crate::hex::{
    hex_bytes_of, hex_decode, is_hex_text, lemma_strip_all_has_no_prefix, strip_all_0x,
    trim_0x_prefixes,
};

verus! {

/// Fetch timeout used when the document gives none.
pub const DEFAULT_FETCH_TIMEOUT_MS: u64 = 8000;

/// Whether fastcrypto accepts these bytes as an Ed25519 verification key.
pub uninterp spec fn ed25519_key_valid(b: Seq<u8>) -> bool;

/// Relies on fastcrypto's `Ed25519PublicKey::from_bytes`: it accepts exactly the
/// 32-byte strings that decompress to a curve point, so its verdict depends on the
/// bytes alone and any other length is refused. The key itself is not kept.
#[verifier::external_body]
fn check_ed25519_key(b: &[u8]) -> (r: Result<(), String>)
    ensures
        r is Ok <==> ed25519_key_valid(b@),
        b@.len() != 32 ==> r is Err,
{
    Ed25519PublicKey::from_bytes(b).map(|_| ()).map_err(|e| e.to_string())
}

/// One provider entry of the configuration document.
#[derive(Debug, Clone)]
pub struct KycProviderConfig {
    pub provider_id: String,
    /// Hex text of the 32-byte verification key, `0x` prefixes allowed.
    pub public_key: String,
    pub allow_unsigned: bool,
}

/// The configuration document, as YAML or JSON gives it.
#[derive(Debug, Clone)]
pub struct FileKycConfig {
    pub walrus_aggregator_url: String,
    pub walrus_timeout_ms: Option<u64>,
    pub enclave_measurement: String,
    pub providers: Vec<KycProviderConfig>,
}

/// A provider's trust policy, with its key decoded.
#[derive(Clone)]
pub struct ProviderRuntime {
    pub provider_id: String,
    pub allow_unsigned: bool,
    pub raw_public_key: String,
    /// The 32 bytes of the verification key, checked to be a valid Ed25519 key.
    pub public_key: Vec<u8>,
}

/// The validated runtime configuration.
#[derive(Clone)]
pub struct KycRuntime {
    pub walrus_aggregator_url: String,
    pub walrus_timeout_ms: u64,
    pub enclave_measurement: String,
    pub providers: Vec<ProviderRuntime>,
}

/// The hex digits of a configured key: all leading `0x` removed.
pub open spec fn key_hex(key: Seq<char>) -> Seq<char> {
    strip_all_0x(key)
}

/// A configured key is usable: hex that decodes to a valid verification key.
pub open spec fn provider_key_ok(key: Seq<char>) -> bool {
    is_hex_text(key_hex(key)) && ed25519_key_valid(hex_bytes_of(key_hex(key)))
}

/// Every provider of the list has a usable key.
pub open spec fn all_keys_ok(ps: Seq<KycProviderConfig>) -> bool {
    forall|i: int| 0 <= i < ps.len() ==> provider_key_ok(#[trigger] ps[i].public_key@)
}

/// `i` is the first provider with an unusable key.
pub open spec fn first_bad_key(ps: Seq<KycProviderConfig>, i: int) -> bool {
    &&& 0 <= i < ps.len()
    &&& !provider_key_ok(ps[i].public_key@)
    &&& forall|j: int| 0 <= j < i ==> provider_key_ok(#[trigger] ps[j].public_key@)
}

/// `rt` is what the document `cfg` describes.
pub open spec fn runtime_matches(cfg: FileKycConfig, rt: KycRuntime) -> bool {
    &&& rt.walrus_aggregator_url@ == cfg.walrus_aggregator_url@
    &&& rt.walrus_timeout_ms == match cfg.walrus_timeout_ms {
        Some(t) => t,
        None => DEFAULT_FETCH_TIMEOUT_MS,
    }
    &&& rt.enclave_measurement@ == cfg.enclave_measurement@
    &&& rt.providers@.len() == cfg.providers@.len()
    &&& forall|i: int|
        0 <= i < cfg.providers@.len() ==> {
            &&& (#[trigger] rt.providers@[i]).provider_id@ == cfg.providers@[i].provider_id@
            &&& rt.providers@[i].allow_unsigned == cfg.providers@[i].allow_unsigned
            &&& rt.providers@[i].raw_public_key@ == cfg.providers@[i].public_key@
            &&& rt.providers@[i].public_key@ == hex_bytes_of(key_hex(cfg.providers@[i].public_key@))
        }
}

/// `e` is the error that validating the document `cfg` reports: no providers,
/// or the first provider whose key is unusable.
pub open spec fn config_error_matches(cfg: FileKycConfig, e: EnclaveConfigError) -> bool {
    if cfg.providers@.len() == 0 {
        e == EnclaveConfigError::NoProviders
    } else {
        e is InvalidProviderKey && exists|i: int|
            first_bad_key(cfg.providers@, i) && e->InvalidProviderKey_provider@
                == cfg.providers@[i].provider_id@
    }
}

/// Provider `i` is the first one registered under `id`.
pub open spec fn first_with_id(ps: Seq<ProviderRuntime>, id: Seq<char>, i: int) -> bool {
    &&& 0 <= i < ps.len()
    &&& ps[i].provider_id@ == id
    &&& forall|j: int| 0 <= j < i ==> (#[trigger] ps[j]).provider_id@ != id
}

impl KycRuntime {
    /// A runtime configuration always has at least one provider.
    pub open spec fn wf(&self) -> bool {
        self.providers@.len() > 0
    }

    /// Validates a configuration document: it needs at least one provider, and
    /// every provider's key must be hex that decodes to an Ed25519 key. The first
    /// provider whose key fails is named in the error.
    pub fn try_from(cfg: FileKycConfig) -> (r: Result<KycRuntime, EnclaveConfigError>)
        ensures
            r is Ok <==> cfg.providers@.len() > 0 && all_keys_ok(cfg.providers@),
            cfg.providers@.len() == 0 ==> r == Err::<KycRuntime, EnclaveConfigError>(
                EnclaveConfigError::NoProviders,
            ),
            r is Ok ==> runtime_matches(cfg, r->Ok_0) && r->Ok_0.wf(),
            r is Err ==> config_error_matches(cfg, r->Err_0),
    {
        if cfg.providers.len() == 0 {
            return Err(EnclaveConfigError::NoProviders);
        }
        let mut providers: Vec<ProviderRuntime> = Vec::with_capacity(cfg.providers.len());
        let mut i: usize = 0;
        while i < cfg.providers.len()
            invariant
                i <= cfg.providers@.len(),
                providers@.len() == i,
                forall|j: int| 0 <= j < i ==> provider_key_ok(#[trigger] cfg.providers@[j].public_key@),
                forall|j: int|
                    0 <= j < i ==> {
                        &&& (#[trigger] providers@[j]).provider_id@ == cfg.providers@[j].provider_id@
                        &&& providers@[j].allow_unsigned == cfg.providers@[j].allow_unsigned
                        &&& providers@[j].raw_public_key@ == cfg.providers@[j].public_key@
                        &&& providers@[j].public_key@ == hex_bytes_of(
                            key_hex(cfg.providers@[j].public_key@),
                        )
                    },
            decreases cfg.providers@.len() - i,
        {
            let provider = &cfg.providers[i];
            let hex = trim_0x_prefixes(provider.public_key.as_str());
            proof {
                lemma_strip_all_has_no_prefix(provider.public_key@);
            }
            let key_bytes = match hex_decode(hex.as_str()) {
                Ok(b) => b,
                Err(e) => {
                    assert(first_bad_key(cfg.providers@, i as int));
                    return Err(
                        EnclaveConfigError::InvalidProviderKey {
                            provider: provider.provider_id.clone(),
                            error: e,
                        },
                    );
                },
            };
            match check_ed25519_key(key_bytes.as_slice()) {
                Ok(()) => {},
                Err(e) => {
                    assert(first_bad_key(cfg.providers@, i as int));
                    return Err(
                        EnclaveConfigError::InvalidProviderKey {
                            provider: provider.provider_id.clone(),
                            error: e,
                        },
                    );
                },
            };
            providers.push(
                ProviderRuntime {
                    provider_id: provider.provider_id.clone(),
                    allow_unsigned: provider.allow_unsigned,
                    raw_public_key: provider.public_key.clone(),
                    public_key: key_bytes,
                },
            );
            i = i + 1;
        }
        let walrus_timeout_ms = match cfg.walrus_timeout_ms {
            Some(t) => t,
            None => DEFAULT_FETCH_TIMEOUT_MS,
        };
        Ok(
            KycRuntime {
                walrus_aggregator_url: cfg.walrus_aggregator_url,
                walrus_timeout_ms,
                enclave_measurement: cfg.enclave_measurement,
                providers,
            },
        )
    }

    /// The first provider registered under `provider_id`, if any.
    pub fn find_provider(&self, provider_id: &str) -> (r: Option<&ProviderRuntime>)
        ensures
            r is None <==> forall|i: int|
                0 <= i < self.providers@.len() ==> (#[trigger] self.providers@[i]).provider_id@
                    != provider_id@,
            r is Some ==> exists|i: int|
                first_with_id(self.providers@, provider_id@, i) && *r->Some_0 == self.providers@[i],
    {
        let target = String::from_str(provider_id);
        let mut i: usize = 0;
        while i < self.providers.len()
            invariant
                i <= self.providers@.len(),
                target@ == provider_id@,
                forall|j: int| 0 <= j < i ==> (#[trigger] self.providers@[j]).provider_id@ != provider_id@,
            decreases self.providers@.len() - i,
        {
            if self.providers[i].provider_id == target {
                assert(first_with_id(self.providers@, provider_id@, i as int));
                return Some(&self.providers[i]);
            }
            i = i + 1;
        }
        None
    }
}

} // verus!
