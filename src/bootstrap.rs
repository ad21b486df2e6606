//! The bootstrap protocol: the trust anchor of the threshold key servers,
//! the write-once runtime configuration store, and the state transitions of
//! parameter loading.
use vstd::prelude::*;
use vstd::utf8::{decode_utf8, valid_utf8};
use crate::config::{FileKycConfig, KycRuntime, all_keys_ok, config_error_matches, runtime_matches};
use crate::error::EnclaveError;
use crate::hex::{ascii_lower, to_ascii_lowercase};
use crate::ptb::{ProgrammableTransaction, create_ptb, is_template, template_possible};

verus! {

/// The trust anchor as read from its document, before validation.
#[derive(Debug, Clone)]
pub struct SealConfigRaw {
    pub key_servers: Vec<Vec<u8>>,
    pub public_keys: Vec<Vec<u8>>,
    pub package_id: Vec<u8>,
}

/// The threshold key servers, their public keys, and the policy package.
/// `server_pk_map` pairs each key server with its key, in order.
#[derive(Debug, Clone)]
pub struct SealConfig {
    pub key_servers: Vec<Vec<u8>>,
    pub public_keys: Vec<Vec<u8>>,
    pub package_id: Vec<u8>,
    pub server_pk_map: Vec<(Vec<u8>, Vec<u8>)>,
}

/// `i` is the last position of `k` among `ids`.
pub open spec fn last_index_of(ids: Seq<Vec<u8>>, k: Seq<u8>, i: int) -> bool {
    &&& 0 <= i < ids.len()
    &&& ids[i]@ == k
    &&& forall|j: int| i < j < ids.len() ==> (#[trigger] ids[j])@ != k
}

/// The id-to-key map of the zipped lists; a repeated id keeps its last key.
pub open spec fn server_map(ids: Seq<Vec<u8>>, pks: Seq<Vec<u8>>) -> Map<Seq<u8>, Seq<u8>> {
    Map::new(
        |k: Seq<u8>| exists|i: int| 0 <= i < ids.len() && (#[trigger] ids[i])@ == k,
        |k: Seq<u8>| pks[choose|i: int| last_index_of(ids, k, i)]@,
    )
}

pub open spec fn distinct_ids(ids: Seq<Vec<u8>>) -> bool {
    forall|i: int, j: int| 0 <= i < ids.len() && 0 <= j < ids.len() && i != j ==> (#[trigger] ids[i])@
        != (#[trigger] ids[j])@
}

impl SealConfig {
    /// The lists have one key per server and the pairs are their zip.
    pub open spec fn wf(&self) -> bool {
        &&& self.key_servers@.len() == self.public_keys@.len()
        &&& self.server_pk_map@.len() == self.key_servers@.len()
        &&& forall|i: int|
            0 <= i < self.key_servers@.len() ==> (#[trigger] self.server_pk_map@[i]).0@
                == self.key_servers@[i]@ && self.server_pk_map@[i].1@ == self.public_keys@[i]@
    }

    /// The key servers' map from id to public key.
    pub open spec fn pk_map(&self) -> Map<Seq<u8>, Seq<u8>> {
        server_map(self.key_servers@, self.public_keys@)
    }

    /// Validates the trust anchor: one public key per key server.
    pub fn try_from(raw: SealConfigRaw) -> (r: Result<SealConfig, EnclaveError>)
        ensures
            r is Ok <==> raw.key_servers@.len() == raw.public_keys@.len(),
            r is Err ==> r == Err::<SealConfig, EnclaveError>(
                EnclaveError::InvalidTrustAnchor {
                    key_servers: raw.key_servers@.len() as usize,
                    public_keys: raw.public_keys@.len() as usize,
                },
            ),
            r is Ok ==> {
                let c = r->Ok_0;
                &&& c.wf()
                &&& c.key_servers@ == raw.key_servers@
                &&& c.public_keys@ == raw.public_keys@
                &&& c.package_id@ == raw.package_id@
            },
    {
        if raw.key_servers.len() != raw.public_keys.len() {
            return Err(
                EnclaveError::InvalidTrustAnchor {
                    key_servers: raw.key_servers.len(),
                    public_keys: raw.public_keys.len(),
                },
            );
        }
        let mut pairs: Vec<(Vec<u8>, Vec<u8>)> = Vec::new();
        let mut i: usize = 0;
        while i < raw.key_servers.len()
            invariant
                raw.key_servers@.len() == raw.public_keys@.len(),
                i <= raw.key_servers@.len(),
                pairs@.len() == i,
                forall|j: int|
                    0 <= j < i ==> (#[trigger] pairs@[j]).0@ == raw.key_servers@[j]@
                        && pairs@[j].1@ == raw.public_keys@[j]@,
            decreases raw.key_servers@.len() - i,
        {
            pairs.push((raw.key_servers[i].clone(), raw.public_keys[i].clone()));
            i = i + 1;
        }
        Ok(
            SealConfig {
                key_servers: raw.key_servers,
                public_keys: raw.public_keys,
                package_id: raw.package_id,
                server_pk_map: pairs,
            },
        )
    }

    /// The public key registered for a key server; a repeated id gives its last key.
    pub fn server_public_key(&self, id: &Vec<u8>) -> (r: Option<&Vec<u8>>)
        requires
            self.wf(),
        ensures
            r is Some <==> self.pk_map().contains_key(id@),
            r is Some ==> r->Some_0@ == self.pk_map()[id@],
    {
        let mut j: usize = self.server_pk_map.len();
        while j > 0
            invariant
                self.wf(),
                j <= self.server_pk_map@.len(),
                forall|m: int| j <= m < self.key_servers@.len() ==> (#[trigger] self.key_servers@[m])@ != id@,
            decreases j,
        {
            j = j - 1;
            let (k, pk) = &self.server_pk_map[j];
            if bytes_equal(k, id) {
                proof {
                    let ids = self.key_servers@;
                    assert(last_index_of(ids, id@, j as int));
                    let c = choose|c: int| last_index_of(ids, id@, c);
                    assert(c == j as int);
                }
                return Some(pk);
            }
        }
        None
    }
}

/// Byte-wise equality of two byte vectors.
fn bytes_equal(a: &Vec<u8>, b: &Vec<u8>) -> (r: bool)
    ensures
        r == (a@ == b@),
{
    if a.len() != b.len() {
        return false;
    }
    let mut i: usize = 0;
    while i < a.len()
        invariant
            a@.len() == b@.len(),
            i <= a@.len(),
            forall|j: int| 0 <= j < i ==> a@[j] == b@[j],
        decreases a@.len() - i,
    {
        if a[i] != b[i] {
            return false;
        }
        i = i + 1;
    }
    assert(a@ =~= b@);
    true
}

/// With distinct key server ids, the trust anchor map pairs each server with
/// the key at its own position and holds no other id.
pub proof fn lemma_trust_anchor_map_is_zip(c: SealConfig)
    requires
        c.wf(),
        distinct_ids(c.key_servers@),
    ensures
        forall|i: int|
            0 <= i < c.key_servers@.len() ==> c.pk_map().contains_key(
                (#[trigger] c.key_servers@[i])@,
            ) && c.pk_map()[c.key_servers@[i]@] == c.public_keys@[i]@,
        forall|k: Seq<u8>|
            #[trigger] c.pk_map().contains_key(k) ==> exists|i: int|
                0 <= i < c.key_servers@.len() && (#[trigger] c.key_servers@[i])@ == k,
{
    let ids = c.key_servers@;
    assert forall|i: int| 0 <= i < ids.len() implies c.pk_map().contains_key(
        (#[trigger] ids[i])@,
    ) && c.pk_map()[ids[i]@] == c.public_keys@[i]@ by {
        assert(last_index_of(ids, ids[i]@, i));
        let w = choose|w: int| last_index_of(ids, ids[i]@, w);
        assert(w == i);
    }
}

/// Answer to a parameter-load request: the encoded key-fetch request.
#[derive(Debug)]
pub struct InitParameterLoadResponse {
    pub encoded_request: String,
}

/// Answer to a completed parameter load: how many providers were installed.
#[derive(Debug, PartialEq, Eq)]
pub struct CompleteParameterLoadResponse {
    pub provider_count: usize,
}

/// Holds at most one runtime configuration. Once set it is never replaced.
pub struct RuntimeConfigStore {
    runtime: Option<KycRuntime>,
}

impl View for RuntimeConfigStore {
    type V = Option<KycRuntime>;

    closed spec fn view(&self) -> Option<KycRuntime> {
        self.runtime
    }
}

/// One completion step from store `prev` with document `cfg`: it ends in store
/// `next`, succeeds when `ok`, and fails as already initialized when `already`.
pub open spec fn completion(
    prev: Option<KycRuntime>,
    cfg: FileKycConfig,
    next: Option<KycRuntime>,
    ok: bool,
    already: bool,
) -> bool {
    if prev is Some {
        !ok && already && next == prev
    } else {
        &&& !already
        &&& ok == (cfg.providers@.len() > 0 && all_keys_ok(cfg.providers@))
        &&& ok ==> next is Some && runtime_matches(cfg, next->Some_0)
        &&& !ok ==> next is None
    }
}

impl RuntimeConfigStore {
    /// What the store holds is a well-formed configuration.
    #[verifier::type_invariant]
    spec fn inv(&self) -> bool {
        self.runtime is Some ==> self.runtime->Some_0.wf()
    }

    /// An empty store.
    pub fn new() -> (r: RuntimeConfigStore)
        ensures
            r@ is None,
    {
        RuntimeConfigStore { runtime: None }
    }

    /// The stored configuration, if one was committed.
    pub fn get(&self) -> (r: Option<&KycRuntime>)
        ensures
            r is None <==> self@ is None,
            r is Some ==> self@ == Some(*r->Some_0) && r->Some_0.wf(),
    {
        proof {
            use_type_invariant(self);
        }
        match &self.runtime {
            Some(rt) => Some(rt),
            None => None,
        }
    }

    pub fn is_initialized(&self) -> (r: bool)
        ensures
            r == self@ is Some,
    {
        self.runtime.is_some()
    }

    /// Stores `rt` unless a configuration is already there; tells whether it did.
    pub fn set_if_absent(&mut self, rt: KycRuntime) -> (r: bool)
        requires
            rt.wf(),
        ensures
            r == old(self)@ is None,
            final(self)@ == if old(self)@ is None {
                Some(rt)
            } else {
                old(self)@
            },
    {
        if self.runtime.is_some() {
            false
        } else {
            self.runtime = Some(rt);
            true
        }
    }
}

/// Fails with `AlreadyInitialized` once a configuration has been committed.
pub fn ensure_uninitialized(store: &RuntimeConfigStore) -> (r: Result<(), EnclaveError>)
    ensures
        store@ is None ==> r is Ok,
        store@ is Some ==> r == Err::<(), EnclaveError>(EnclaveError::AlreadyInitialized),
{
    if store.is_initialized() {
        Err(EnclaveError::AlreadyInitialized)
    } else {
        Ok(())
    }
}

/// First phase of bootstrap: while no configuration is committed, builds the
/// policy-check template that the key-fetch request carries.
pub fn init_parameter_load(
    store: &RuntimeConfigStore,
    seal: &SealConfig,
    enclave_object_id: &Vec<u8>,
    initial_shared_version: u64,
    ids: &Vec<Vec<u8>>,
) -> (r: Result<ProgrammableTransaction, EnclaveError>)
    ensures
        store@ is Some ==> r == Err::<ProgrammableTransaction, EnclaveError>(
            EnclaveError::AlreadyInitialized,
        ),
        store@ is None ==> (r is Ok <==> template_possible(ids@)),
        r is Ok ==> is_template(
            r->Ok_0,
            seal.package_id@,
            enclave_object_id@,
            initial_shared_version,
            ids@,
        ),
{
    ensure_uninitialized(store)?;
    create_ptb(&seal.package_id, enclave_object_id, initial_shared_version, ids)
}

/// Relies on `std::str::from_utf8`: the text when the bytes are valid UTF-8.
#[verifier::external_body]
fn utf8_text(b: &[u8]) -> (r: Option<String>)
    ensures
        r is Some <==> valid_utf8(b@),
        r is Some ==> r->Some_0@ == decode_utf8(b@),
{
    std::str::from_utf8(b).ok().map(|s| s.to_owned())
}

/// The configuration text carried by the first decrypted secret.
pub fn first_secret_text(secrets: &Vec<Vec<u8>>) -> (r: Result<String, EnclaveError>)
    ensures
        secrets@.len() == 0 ==> r is Err && r->Err_0 is DecryptFailed,
        secrets@.len() > 0 ==> (r is Ok <==> valid_utf8(secrets@[0]@)),
        secrets@.len() > 0 && r is Err ==> r == Err::<String, EnclaveError>(EnclaveError::InvalidUtf8),
        r is Ok ==> r->Ok_0@ == decode_utf8(secrets@[0]@),
{
    if secrets.len() == 0 {
        return Err(EnclaveError::DecryptFailed(String::from_str("no secret was recovered")));
    }
    match utf8_text(secrets[0].as_slice()) {
        Some(text) => Ok(text),
        None => Err(EnclaveError::InvalidUtf8),
    }
}

/// Second phase of bootstrap, in one exclusive step: unless a configuration is
/// already committed, validates the decrypted document and commits it. Returns
/// the number of providers installed.
pub fn complete_parameter_load(store: &mut RuntimeConfigStore, cfg: FileKycConfig) -> (r: Result<
    CompleteParameterLoadResponse,
    EnclaveError,
>)
    ensures
        completion(
            old(store)@,
            cfg,
            final(store)@,
            r is Ok,
            r == Err::<CompleteParameterLoadResponse, EnclaveError>(EnclaveError::AlreadyInitialized),
        ),
        r is Ok ==> r->Ok_0.provider_count == cfg.providers@.len(),
        old(store)@ is None && r is Err ==> r->Err_0 is InvalidConfig && config_error_matches(
            cfg,
            r->Err_0->InvalidConfig_0,
        ),
{
    if store.is_initialized() {
        return Err(EnclaveError::AlreadyInitialized);
    }
    let count = cfg.providers.len();
    match KycRuntime::try_from(cfg) {
        Ok(rt) => {
            store.set_if_absent(rt);
            Ok(CompleteParameterLoadResponse { provider_count: count })
        },
        Err(e) => Err(EnclaveError::InvalidConfig(e)),
    }
}

/// Installs a configuration read from a local file, unless one is already
/// committed, in which case the store is left as it is.
pub fn load_fallback_config(store: &mut RuntimeConfigStore, cfg: FileKycConfig) -> (r: Result<
    (),
    EnclaveError,
>)
    ensures
        old(store)@ is Some ==> r is Ok && final(store)@ == old(store)@,
        old(store)@ is None ==> completion(old(store)@, cfg, final(store)@, r is Ok, false),
        old(store)@ is None && r is Err ==> r->Err_0 is InvalidConfig && config_error_matches(
            cfg,
            r->Err_0->InvalidConfig_0,
        ),
{
    if store.is_initialized() {
        return Ok(());
    }
    match KycRuntime::try_from(cfg) {
        Ok(rt) => {
            store.set_if_absent(rt);
            Ok(())
        },
        Err(e) => Err(EnclaveError::InvalidConfig(e)),
    }
}

/// Once a completion has succeeded, every later completion fails as already
/// initialized and leaves the stored configuration as it was.
pub proof fn lemma_completion_after_success_fails(
    s0: Option<KycRuntime>,
    cfg1: FileKycConfig,
    s1: Option<KycRuntime>,
    already1: bool,
    cfg2: FileKycConfig,
    s2: Option<KycRuntime>,
    ok2: bool,
    already2: bool,
)
    requires
        completion(s0, cfg1, s1, true, already1),
        completion(s1, cfg2, s2, ok2, already2),
    ensures
        !ok2,
        already2,
        s2 == s1,
{
}

/// Two completions on an empty store, one after the other, never both
/// succeed: when the first succeeds the second is refused as already
/// initialized and the first configuration stays.
pub proof fn lemma_completions_are_serialized(
    cfg1: FileKycConfig,
    s1: Option<KycRuntime>,
    ok1: bool,
    already1: bool,
    cfg2: FileKycConfig,
    s2: Option<KycRuntime>,
    ok2: bool,
    already2: bool,
)
    requires
        completion(None, cfg1, s1, ok1, already1),
        completion(s1, cfg2, s2, ok2, already2),
    ensures
        !(ok1 && ok2),
        ok1 ==> already2 && s2 == s1 && runtime_matches(cfg1, s2->Some_0),
        s2 is Some ==> (ok1 || ok2),
{
}

/// A setting of the bootstrap-listener switch turns it on: `1`, `true`, `yes` or
/// `on`, in any case of ASCII letters.
pub open spec fn switch_on(v: Seq<char>) -> bool {
    let l = ascii_lower(v);
    l == seq!['1'] || l == seq!['t', 'r', 'u', 'e'] || l == seq!['y', 'e', 's'] || l == seq!['o', 'n']
}

/// Whether the operator-only bootstrap listener runs: on when the switch is
/// unset, else as its setting says.
pub fn seal_host_enabled(setting: Option<String>) -> (r: bool)
    ensures
        r == match setting {
            None => true,
            Some(v) => switch_on(v@),
        },
{
    match setting {
        None => true,
        Some(v) => {
            let l = to_ascii_lowercase(v.as_str());
            let one = String::from_str("1");
            let true_text = String::from_str("true");
            let yes = String::from_str("yes");
            let on = String::from_str("on");
            proof {
                reveal_strlit("1");
                reveal_strlit("true");
                reveal_strlit("yes");
                reveal_strlit("on");
                assert(one@ =~= seq!['1']);
                assert(true_text@ =~= seq!['t', 'r', 'u', 'e']);
                assert(yes@ =~= seq!['y', 'e', 's']);
                assert(on@ =~= seq!['o', 'n']);
            }
            l == one || l == true_text || l == yes || l == on
        },
    }
}

} // verus!
