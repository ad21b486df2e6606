use kyc_enclave::bootstrap::{ensure_uninitialized, first_secret_text, load_fallback_config, seal_host_enabled};
use kyc_enclave::ptb::{create_ptb, PtbInput};
use kyc_enclave::{
    complete_parameter_load, init_parameter_load, CompleteParameterLoadResponse,
    EnclaveConfigError, EnclaveError, FileKycConfig, KycProviderConfig, KycRuntime,
    RuntimeConfigStore, SealConfig, SealConfigRaw,
};

const BASEPOINT_HEX: &str = "5866666666666666666666666666666666666666666666666666666666666666";

fn provider(id: &str, key: &str) -> KycProviderConfig {
    KycProviderConfig { provider_id: id.to_string(), public_key: key.to_string(), allow_unsigned: false }
}

fn config(providers: Vec<KycProviderConfig>, measurement: &str) -> FileKycConfig {
    FileKycConfig {
        walrus_aggregator_url: "https://agg".to_string(),
        walrus_timeout_ms: Some(1234),
        enclave_measurement: measurement.to_string(),
        providers,
    }
}

fn seal() -> SealConfig {
    SealConfig::try_from(SealConfigRaw {
        key_servers: vec![vec![1; 32], vec![2; 32]],
        public_keys: vec![vec![10; 96], vec![20; 96]],
        package_id: vec![9; 32],
    })
    .ok()
    .unwrap()
}

#[test]
fn runtime_needs_providers() {
    assert!(matches!(KycRuntime::try_from(config(vec![], "m")), Err(EnclaveConfigError::NoProviders)));
}

#[test]
fn runtime_names_provider_with_bad_key() {
    let cfg = config(vec![provider("good", BASEPOINT_HEX), provider("bad", "xyz"), provider("worse", "00")], "m");
    match KycRuntime::try_from(cfg) {
        Err(EnclaveConfigError::InvalidProviderKey { provider, .. }) => assert_eq!(provider, "bad"),
        _ => panic!("expected an invalid key"),
    }
    let cfg = config(vec![provider("short", "0x00112233")], "m");
    match KycRuntime::try_from(cfg) {
        Err(EnclaveConfigError::InvalidProviderKey { provider, .. }) => assert_eq!(provider, "short"),
        _ => panic!("expected an invalid key"),
    }
}

#[test]
fn runtime_from_valid_document() {
    let key = format!("0x0x{}", BASEPOINT_HEX);
    let rt = KycRuntime::try_from(config(vec![provider("a", &key), provider("b", BASEPOINT_HEX)], "m")).ok().unwrap();
    assert_eq!(rt.walrus_timeout_ms, 1234);
    assert_eq!(rt.providers.len(), 2);
    assert_eq!(rt.providers[0].raw_public_key, key);
    let mut expected = vec![0x66u8; 32];
    expected[0] = 0x58;
    assert_eq!(rt.providers[0].public_key, expected);
    assert_eq!(rt.providers[1].public_key, expected);
    assert_eq!(rt.find_provider("b").unwrap().provider_id, "b");
}

#[test]
fn find_provider_takes_first_match() {
    let mut first = provider("dup", BASEPOINT_HEX);
    first.allow_unsigned = true;
    let rt = KycRuntime::try_from(config(vec![first, provider("dup", BASEPOINT_HEX)], "m")).ok().unwrap();
    assert!(rt.find_provider("dup").unwrap().allow_unsigned);
}

#[test]
fn trust_anchor_length_mismatch() {
    let r = SealConfig::try_from(SealConfigRaw {
        key_servers: vec![vec![1; 32], vec![2; 32]],
        public_keys: vec![vec![10; 96]],
        package_id: vec![9; 32],
    });
    assert!(matches!(r, Err(EnclaveError::InvalidTrustAnchor { key_servers: 2, public_keys: 1 })));
}

#[test]
fn trust_anchor_map_pairs_servers_with_keys() {
    let c = seal();
    assert_eq!(c.server_pk_map.len(), 2);
    assert_eq!(c.server_public_key(&vec![1; 32]), Some(&vec![10; 96]));
    assert_eq!(c.server_public_key(&vec![2; 32]), Some(&vec![20; 96]));
    assert_eq!(c.server_public_key(&vec![3; 32]), None);
    let dup = SealConfig::try_from(SealConfigRaw {
        key_servers: vec![vec![1; 32], vec![1; 32]],
        public_keys: vec![vec![10; 96], vec![11; 96]],
        package_id: vec![],
    })
    .ok()
    .unwrap();
    assert_eq!(dup.server_public_key(&vec![1; 32]), Some(&vec![11; 96]));
}

#[test]
fn template_layout() {
    let ids = vec![vec![1, 2, 3], vec![4]];
    let t = create_ptb(&vec![9; 32], &vec![5; 32], 77, &ids).ok().unwrap();
    assert_eq!(t.inputs.len(), 3);
    assert_eq!(t.inputs[0], PtbInput::Pure { value: vec![3, 1, 2, 3] });
    assert_eq!(t.inputs[1], PtbInput::Pure { value: vec![1, 4] });
    assert_eq!(
        t.inputs[2],
        PtbInput::Shared { object_id: vec![5; 32], initial_shared_version: 77, mutable: false }
    );
    assert_eq!(t.commands.len(), 2);
    assert_eq!(t.commands[1].arguments, vec![1, 2]);
    assert_eq!(t.commands[0].arguments, vec![0, 2]);
    assert_eq!(t.commands[0].module, "seal_policy");
    assert_eq!(t.commands[0].function, "seal_approve");
    assert_eq!(t.commands[0].package, vec![9; 32]);
}

#[test]
fn template_long_key_id_uses_multibyte_length() {
    let ids = vec![vec![0xEE; 200]];
    let t = create_ptb(&vec![], &vec![], 0, &ids).ok().unwrap();
    match &t.inputs[0] {
        PtbInput::Pure { value } => {
            assert_eq!(&value[..2], &[200, 1]);
            assert_eq!(value.len(), 202);
        }
        _ => panic!("expected a pure input"),
    }
}

#[test]
fn template_needs_ids() {
    assert!(matches!(create_ptb(&vec![], &vec![], 0, &vec![]), Err(EnclaveError::NoKeyIds)));
    let too_many = vec![vec![]; 65536];
    assert!(matches!(create_ptb(&vec![], &vec![], 0, &too_many), Err(EnclaveError::TooManyKeyIds)));
}

#[test]
fn init_refused_once_initialized() {
    let mut store = RuntimeConfigStore::new();
    assert_eq!(ensure_uninitialized(&store), Ok(()));
    let t = init_parameter_load(&store, &seal(), &vec![5; 32], 3, &vec![vec![1]]).ok().unwrap();
    assert_eq!(t.commands[0].package, vec![9; 32]);
    complete_parameter_load(&mut store, config(vec![provider("a", BASEPOINT_HEX)], "m")).ok().unwrap();
    assert_eq!(ensure_uninitialized(&store), Err(EnclaveError::AlreadyInitialized));
    assert!(matches!(
        init_parameter_load(&store, &seal(), &vec![5; 32], 3, &vec![vec![1]]),
        Err(EnclaveError::AlreadyInitialized)
    ));
}

#[test]
fn second_completion_is_refused_and_keeps_first() {
    let mut store = RuntimeConfigStore::new();
    let first = complete_parameter_load(&mut store, config(vec![provider("a", BASEPOINT_HEX), provider("b", BASEPOINT_HEX)], "first"));
    assert_eq!(first, Ok(CompleteParameterLoadResponse { provider_count: 2 }));
    let second = complete_parameter_load(&mut store, config(vec![provider("c", BASEPOINT_HEX)], "second"));
    assert_eq!(second, Err(EnclaveError::AlreadyInitialized));
    let rt = store.get().unwrap();
    assert_eq!(rt.enclave_measurement, "first");
    assert_eq!(rt.providers.len(), 2);
}

#[test]
fn failed_completion_leaves_store_empty() {
    let mut store = RuntimeConfigStore::new();
    let r = complete_parameter_load(&mut store, config(vec![], "m"));
    assert_eq!(r, Err(EnclaveError::InvalidConfig(EnclaveConfigError::NoProviders)));
    assert!(!store.is_initialized());
    let r = complete_parameter_load(&mut store, config(vec![provider("a", BASEPOINT_HEX)], "m"));
    assert_eq!(r, Ok(CompleteParameterLoadResponse { provider_count: 1 }));
}

#[test]
fn fallback_does_not_replace_committed_config() {
    let mut store = RuntimeConfigStore::new();
    assert_eq!(load_fallback_config(&mut store, config(vec![provider("a", BASEPOINT_HEX)], "file")), Ok(()));
    assert_eq!(load_fallback_config(&mut store, config(vec![provider("b", BASEPOINT_HEX)], "other")), Ok(()));
    assert_eq!(store.get().unwrap().enclave_measurement, "file");
    let again = complete_parameter_load(&mut store, config(vec![provider("c", BASEPOINT_HEX)], "seal"));
    assert_eq!(again, Err(EnclaveError::AlreadyInitialized));
    let mut empty = RuntimeConfigStore::new();
    assert!(matches!(load_fallback_config(&mut empty, config(vec![], "x")), Err(EnclaveError::InvalidConfig(_))));
    assert!(empty.get().is_none());
}

#[test]
fn set_if_absent_is_write_once() {
    let mut store = RuntimeConfigStore::new();
    let a = KycRuntime::try_from(config(vec![provider("a", BASEPOINT_HEX)], "a")).ok().unwrap();
    let b = KycRuntime::try_from(config(vec![provider("b", BASEPOINT_HEX)], "b")).ok().unwrap();
    assert!(store.set_if_absent(a));
    assert!(!store.set_if_absent(b));
    assert_eq!(store.get().unwrap().enclave_measurement, "a");
}

#[test]
fn first_secret_decoding() {
    assert!(matches!(first_secret_text(&vec![]), Err(EnclaveError::DecryptFailed(_))));
    assert_eq!(first_secret_text(&vec![vec![0xff, 0xfe]]), Err(EnclaveError::InvalidUtf8));
    assert_eq!(first_secret_text(&vec![b"providers: []".to_vec(), vec![0xff]]), Ok("providers: []".to_string()));
}

#[test]
fn seal_host_switch() {
    assert!(seal_host_enabled(None));
    assert!(seal_host_enabled(Some("TRUE".to_string())));
    assert!(seal_host_enabled(Some("1".to_string())));
    assert!(seal_host_enabled(Some("Yes".to_string())));
    assert!(seal_host_enabled(Some("on".to_string())));
    assert!(!seal_host_enabled(Some("off".to_string())));
    assert!(!seal_host_enabled(Some("".to_string())));
    assert!(!seal_host_enabled(Some(" true".to_string())));
}
