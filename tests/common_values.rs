use kyc_enclave::config::DEFAULT_FETCH_TIMEOUT_MS;
use kyc_enclave::hex::trim_0x_prefixes;
use kyc_enclave::kyc::{blob_url, decimal_text, fetch_timeout_ms, timestamp_from_elapsed};
use kyc_enclave::{
    canonical_message, intent_timestamp, normalize_hex, walrus_cid, FileKycConfig,
    KycProviderConfig, KycRequestPayload, KycRuntime,
};

const BASEPOINT_HEX: &str = "5866666666666666666666666666666666666666666666666666666666666666";

fn payload() -> KycRequestPayload {
    KycRequestPayload {
        userWallet: "0xwallet".to_string(),
        providerId: "acme".to_string(),
        kycLevel: 2,
        isPep: false,
        isSanctioned: false,
        blobId: "blob-1".to_string(),
        docHash: "0xabc".to_string(),
        walrusBlobObject: None,
        nationality: "CH".to_string(),
        cardArtCid: "cid".to_string(),
        providerSignature: None,
    }
}

fn runtime(url: &str, timeout: Option<u64>) -> KycRuntime {
    let cfg = FileKycConfig {
        walrus_aggregator_url: url.to_string(),
        walrus_timeout_ms: timeout,
        enclave_measurement: "m".to_string(),
        providers: vec![KycProviderConfig {
            provider_id: "acme".to_string(),
            public_key: BASEPOINT_HEX.to_string(),
            allow_unsigned: true,
        }],
    };
    match KycRuntime::try_from(cfg) {
        Ok(rt) => rt,
        Err(e) => panic!("runtime refused: {:?}", e),
    }
}

#[test]
fn normalize_adds_prefix_and_lowercases() {
    assert_eq!(normalize_hex("abcd"), "0xabcd");
    assert_eq!(normalize_hex("0xABCD"), "0xabcd");
    assert_eq!(normalize_hex("0XAB"), "0xab");
    assert_eq!(normalize_hex(""), "0x");
    assert_eq!(normalize_hex("0"), "0x0");
    assert_eq!(normalize_hex("é"), "0xé");
}

#[test]
fn normalize_is_case_and_prefix_insensitive() {
    let a = normalize_hex("ABCD");
    assert_eq!(a, "0xabcd");
    assert_eq!(normalize_hex("0xABCD"), a);
    assert_eq!(normalize_hex("0xabcd"), a);
    assert_eq!(normalize_hex("0XaBcD"), a);
    assert_eq!(normalize_hex(&a), a);
    assert_eq!(normalize_hex("AB"), normalize_hex("ab"));
    assert_eq!(normalize_hex("AB"), normalize_hex("0xab"));
}

#[test]
fn trim_removes_every_leading_prefix() {
    assert_eq!(trim_0x_prefixes("0x0xab"), "ab");
    assert_eq!(trim_0x_prefixes("ab0x"), "ab0x");
    assert_eq!(trim_0x_prefixes("0X12"), "0X12");
    assert_eq!(trim_0x_prefixes(""), "");
}

#[test]
fn decimal_text_of_bytes() {
    assert_eq!(decimal_text(0), "0");
    assert_eq!(decimal_text(7), "7");
    assert_eq!(decimal_text(42), "42");
    assert_eq!(decimal_text(100), "100");
    assert_eq!(decimal_text(255), "255");
}

#[test]
fn canonical_message_layout() {
    let p = payload();
    assert_eq!(canonical_message(&p), b"acme::0xwallet::blob-1::0xabc::2".to_vec());
}

#[test]
fn canonical_message_ignores_unsigned_fields() {
    let a = payload();
    let mut b = payload();
    b.isPep = true;
    b.isSanctioned = true;
    b.cardArtCid = "other".to_string();
    b.nationality = "FR".to_string();
    b.walrusBlobObject = Some("0xobj".to_string());
    b.providerSignature = Some("00".to_string());
    assert_eq!(canonical_message(&a), canonical_message(&b));
    let mut c = payload();
    c.kycLevel = 3;
    assert_ne!(canonical_message(&a), canonical_message(&c));
}

#[test]
fn canonical_message_keeps_non_ascii_as_utf8() {
    let mut p = payload();
    p.userWallet = "é".to_string();
    p.kycLevel = 255;
    assert_eq!(canonical_message(&p), "acme::é::blob-1::0xabc::255".as_bytes().to_vec());
}

#[test]
fn walrus_cid_prefers_object() {
    let mut p = payload();
    assert_eq!(walrus_cid(&p), "blob-1");
    p.walrusBlobObject = Some("0xobj".to_string());
    assert_eq!(walrus_cid(&p), "0xobj");
}

#[test]
fn blob_url_trims_trailing_slashes() {
    let rt = runtime("https://agg.example//", None);
    assert_eq!(blob_url(&rt, "abc"), "https://agg.example/v1/blobs/abc");
    let rt = runtime("https://agg.example", None);
    assert_eq!(blob_url(&rt, "x"), "https://agg.example/v1/blobs/x");
    let rt = runtime("///", None);
    assert_eq!(blob_url(&rt, "x"), "/v1/blobs/x");
}

#[test]
fn fetch_timeout_default_and_floor() {
    let rt = runtime("u", None);
    assert_eq!(rt.walrus_timeout_ms, DEFAULT_FETCH_TIMEOUT_MS);
    assert_eq!(fetch_timeout_ms(&rt), 8000);
    let rt = runtime("u", Some(0));
    assert_eq!(fetch_timeout_ms(&rt), 1);
    let rt = runtime("u", Some(250));
    assert_eq!(fetch_timeout_ms(&rt), 250);
}

#[test]
fn timestamps() {
    assert_eq!(timestamp_from_elapsed(None), 0);
    assert_eq!(timestamp_from_elapsed(Some(1_700_000_000_000)), 1_700_000_000_000);
    assert_eq!(timestamp_from_elapsed(Some((1u128 << 64) + 5)), 5);
    assert!(intent_timestamp() > 1_600_000_000_000);
}
