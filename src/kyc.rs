//! The submission pipeline: provider lookup, signature check over the
//! canonical message, content-hash validation and the verified result.
use vstd::prelude::*;
use vstd::utf8::encode_utf8;
use fastcrypto::ed25519::{Ed25519PublicKey, Ed25519Signature};
use fastcrypto::traits::{ToFromBytes, VerifyingKey};
use sha2::{Digest, Sha256};
use std::time::{SystemTime, UNIX_EPOCH};
use crate::config::{KycRuntime, ProviderRuntime, first_with_id};
use crate::error::EnclaveError;
use crate::hex::{
    ascii_lower, ascii_lower_char, hex_bytes_of, hex_decode, hex_encode,
    hex_text_of, is_hex_text, lemma_strip_all_has_no_prefix, lower_hex_digit, normalize_hex,
    normalized, strip_all_0x, to_ascii_lowercase, trim_0x_prefixes,
};

verus! {

/// A provider's submission, with the field names of the wire format.
#[allow(non_snake_case)]
#[derive(Debug, Clone)]
pub struct KycRequestPayload {
    pub userWallet: String,
    pub providerId: String,
    pub kycLevel: u8,
    pub isPep: bool,
    pub isSanctioned: bool,
    pub blobId: String,
    pub docHash: String,
    pub walrusBlobObject: Option<String>,
    pub nationality: String,
    pub cardArtCid: String,
    pub providerSignature: Option<String>,
}

/// The verified result that the enclave signs.
#[allow(non_snake_case)]
#[derive(Debug, Clone)]
pub struct KycResponsePayload {
    pub userWallet: String,
    pub providerId: String,
    pub kycLevel: u8,
    pub isPep: bool,
    pub isSanctioned: bool,
    pub blobId: String,
    pub docHash: String,
    pub walrusCid: String,
    pub teeMeasurement: String,
    pub nationality: String,
    pub cardArtCid: String,
}

pub open spec fn decimal_digit(n: nat) -> char {
    seq!['0', '1', '2', '3', '4', '5', '6', '7', '8', '9'][n as int]
}

/// Decimal text of `n`, without leading zeros.
pub open spec fn decimal_of(n: nat) -> Seq<char>
    decreases n,
{
    if n < 10 {
        seq![decimal_digit(n)]
    } else {
        decimal_of(n / 10) + seq![decimal_digit(n % 10)]
    }
}

pub open spec fn separator() -> Seq<char> {
    seq![':', ':']
}

/// `provider::wallet::blob::hash::level`, with no escaping.
pub open spec fn canonical_text(
    provider: Seq<char>,
    wallet: Seq<char>,
    blob: Seq<char>,
    hash: Seq<char>,
    level: u8,
) -> Seq<char> {
    provider + separator() + wallet + separator() + blob + separator() + hash + separator()
        + decimal_of(level as nat)
}

/// The bytes a provider signs for a submission.
pub open spec fn canonical_bytes(p: KycRequestPayload) -> Seq<u8> {
    encode_utf8(canonical_text(p.providerId@, p.userWallet@, p.blobId@, p.docHash@, p.kycLevel))
}

/// A signature text is hex (after its `0x` prefixes) of exactly 64 bytes.
pub open spec fn signature_encoding_ok(s: Seq<char>) -> bool {
    is_hex_text(strip_all_0x(s)) && hex_bytes_of(strip_all_0x(s)).len() == 64
}

/// The signature bytes that a signature text stands for.
pub open spec fn signature_bytes(s: Seq<char>) -> Seq<u8> {
    hex_bytes_of(strip_all_0x(s))
}

/// The outcome of checking the signature of `payload` against `provider`.
pub open spec fn signature_result(provider: ProviderRuntime, payload: KycRequestPayload) -> Result<
    (),
    EnclaveError,
> {
    if provider.allow_unsigned {
        Ok(())
    } else {
        match payload.providerSignature {
            None => Err(EnclaveError::MissingSignature),
            Some(s) => if !signature_encoding_ok(s@) {
                Err(EnclaveError::InvalidSignatureEncoding)
            } else if ed25519_verifies(
                provider.public_key@,
                canonical_bytes(payload),
                signature_bytes(s@),
            ) {
                Ok(())
            } else {
                Err(EnclaveError::SignatureMismatch)
            },
        }
    }
}

/// The digest in the form the enclave reports it.
pub open spec fn digest_text(d: Seq<u8>) -> Seq<char> {
    seq!['0', 'x'] + hex_text_of(d)
}

/// SHA-256 digest of a byte string.
pub uninterp spec fn sha256_of(b: Seq<u8>) -> Seq<u8>;

/// Relies on sha2's `Sha256::digest`: the 32-byte digest of the input.
#[verifier::external_body]
fn sha256(b: &[u8]) -> (r: Vec<u8>)
    ensures
        r@ == sha256_of(b@),
        r@.len() == 32,
{
    Sha256::digest(b).to_vec()
}

/// Whether `sig` is an Ed25519 signature of `msg` under the key `key`.
pub uninterp spec fn ed25519_verifies(key: Seq<u8>, msg: Seq<u8>, sig: Seq<u8>) -> bool;

/// Relies on fastcrypto's `Ed25519PublicKey::from_bytes`, `Ed25519Signature::from_bytes`
/// and `VerifyingKey::verify` (ZIP215 rules): the verdict depends on the three byte
/// strings alone; bytes that do not parse as a key or a signature never verify.
#[verifier::external_body]
fn ed25519_verify(key: &[u8], msg: &[u8], sig: &[u8]) -> (r: bool)
    ensures
        r == ed25519_verifies(key@, msg@, sig@),
{
    match (Ed25519PublicKey::from_bytes(key), Ed25519Signature::from_bytes(sig)) {
        (Ok(k), Ok(s)) => k.verify(msg, &s).is_ok(),
        _ => false,
    }
}

/// Decimal text of a byte value.
pub fn decimal_text(n: u8) -> (r: String)
    ensures
        r@ == decimal_of(n as nat),
{
    let digits = "0123456789";
    proof {
        reveal_strlit("0123456789");
        assert(digits@ =~= seq!['0', '1', '2', '3', '4', '5', '6', '7', '8', '9']);
    }
    let mut r = String::new();
    if n >= 100 {
        let h = (n / 100) as usize;
        r.append(digits.substring_char(h, h + 1));
    }
    if n >= 10 {
        let t = ((n / 10) % 10) as usize;
        r.append(digits.substring_char(t, t + 1));
    }
    let u = (n % 10) as usize;
    r.append(digits.substring_char(u, u + 1));
    proof {
        let m = n as nat;
        if m >= 100 {
            assert(decimal_of(m / 100) == seq![decimal_digit(m / 100)]);
            assert(decimal_of(m / 10) == decimal_of(m / 10 / 10) + seq![decimal_digit((m / 10) % 10)]);
            assert(m / 10 / 10 == m / 100);
        } else if m >= 10 {
            assert(decimal_of(m / 10) == seq![decimal_digit(m / 10)]);
            assert((m / 10) % 10 == m / 10);
        }
        assert(r@ =~= decimal_of(m));
    }
    r
}

/// The bytes a provider signs: `providerId::userWallet::blobId::docHash::kycLevel`.
pub fn canonical_message(payload: &KycRequestPayload) -> (r: Vec<u8>)
    ensures
        r@ == canonical_bytes(*payload),
{
    let sep = "::";
    proof {
        reveal_strlit("::");
    }
    let mut s = payload.providerId.clone();
    s.append(sep);
    s.append(payload.userWallet.as_str());
    s.append(sep);
    s.append(payload.blobId.as_str());
    s.append(sep);
    s.append(payload.docHash.as_str());
    s.append(sep);
    let level = decimal_text(payload.kycLevel);
    s.append(level.as_str());
    proof {
        assert(s@ =~= canonical_text(
            payload.providerId@,
            payload.userWallet@,
            payload.blobId@,
            payload.docHash@,
            payload.kycLevel,
        ));
    }
    s.as_str().as_bytes_vec()
}

/// Checks a submission's signature against its provider's policy. A provider
/// that allows unsigned submissions accepts any; otherwise the signature must be
/// present, be hex of 64 bytes, and verify over the canonical message.
pub fn verify_provider_signature(provider: &ProviderRuntime, payload: &KycRequestPayload) -> (r:
    Result<(), EnclaveError>)
    ensures
        r == signature_result(*provider, *payload),
{
    if provider.allow_unsigned {
        return Ok(());
    }
    let signature_hex = match &payload.providerSignature {
        Some(s) => s,
        None => {
            return Err(EnclaveError::MissingSignature);
        },
    };
    let hex = trim_0x_prefixes(signature_hex.as_str());
    proof {
        lemma_strip_all_has_no_prefix(signature_hex@);
    }
    let sig_bytes = match hex_decode(hex.as_str()) {
        Ok(b) => b,
        Err(_) => {
            return Err(EnclaveError::InvalidSignatureEncoding);
        },
    };
    if sig_bytes.len() != 64 {
        return Err(EnclaveError::InvalidSignatureEncoding);
    }
    let msg = canonical_message(payload);
    if ed25519_verify(provider.public_key.as_slice(), msg.as_slice(), sig_bytes.as_slice()) {
        Ok(())
    } else {
        Err(EnclaveError::SignatureMismatch)
    }
}

proof fn lemma_digest_text_is_lower(d: Seq<u8>)
    ensures
        ascii_lower(digest_text(d)) == digest_text(d),
{
    let t = digest_text(d);
    assert forall|i: int| 0 <= i < t.len() implies ascii_lower_char(#[trigger] t[i])
        == t[i] by {
        if i >= 2 {
            let j = i - 2;
            let n = if j % 2 == 0 {
                d[j / 2] as int / 16
            } else {
                d[j / 2] as int % 16
            };
            assert(0 <= n < 16);
            assert(t[i] == lower_hex_digit(n));
        }
    }
    assert(ascii_lower(t) =~= t);
}

/// Compares a claimed hash with a digest, ignoring case and an absent `0x`.
pub fn doc_hash_matches(expected: &str, digest: &[u8]) -> (r: Result<(), EnclaveError>)
    ensures
        r is Ok <==> normalized(expected@) == digest_text(digest@),
        r is Err ==> (r->Err_0 is HashMismatch && r->Err_0->HashMismatch_expected@ == expected@
            && r->Err_0->HashMismatch_computed@ == digest_text(digest@)),
{
    let mut computed = String::from_str("0x");
    proof {
        reveal_strlit("0x");
    }
    let hex = hex_encode(digest);
    computed.append(hex.as_str());
    assert(computed@ =~= digest_text(digest@));
    let computed_key = to_ascii_lowercase(computed.as_str());
    proof {
        lemma_digest_text_is_lower(digest@);
    }
    let expected_key = normalize_hex(expected);
    if computed_key == expected_key {
        Ok(())
    } else {
        Err(EnclaveError::HashMismatch { expected: String::from_str(expected), computed })
    }
}

/// Checks that the fetched content hashes (SHA-256) to the claimed value.
pub fn validate_doc_hash(expected: &str, actual_blob: &[u8]) -> (r: Result<(), EnclaveError>)
    ensures
        r is Ok <==> normalized(expected@) == digest_text(sha256_of(actual_blob@)),
        r is Err ==> (r->Err_0 is HashMismatch && r->Err_0->HashMismatch_expected@ == expected@
            && r->Err_0->HashMismatch_computed@ == digest_text(sha256_of(actual_blob@))),
{
    let digest = sha256(actual_blob);
    doc_hash_matches(expected, digest.as_slice())
}

/// The content identifier reported: the on-chain object if given, else the blob id.
pub fn walrus_cid(payload: &KycRequestPayload) -> (r: String)
    ensures
        r@ == match payload.walrusBlobObject {
            Some(o) => o@,
            None => payload.blobId@,
        },
{
    match &payload.walrusBlobObject {
        Some(o) => o.clone(),
        None => payload.blobId.clone(),
    }
}

/// The canonical message depends on the five signed fields alone.
pub proof fn lemma_canonical_message_depends_on_signed_fields(
    a: KycRequestPayload,
    b: KycRequestPayload,
)
    requires
        a.providerId@ == b.providerId@,
        a.userWallet@ == b.userWallet@,
        a.blobId@ == b.blobId@,
        a.docHash@ == b.docHash@,
        a.kycLevel == b.kycLevel,
    ensures
        canonical_bytes(a) == canonical_bytes(b),
{
}

/// `base` without its trailing slashes.
pub open spec fn trim_trailing_slashes(s: Seq<char>) -> Seq<char>
    decreases s.len(),
{
    if s.len() > 0 && s.last() == '/' {
        trim_trailing_slashes(s.drop_last())
    } else {
        s
    }
}

pub open spec fn blobs_path() -> Seq<char> {
    seq!['/', 'v', '1', '/', 'b', 'l', 'o', 'b', 's', '/']
}

/// Where the aggregator serves a blob: `{base}/v1/blobs/{blob_id}`.
pub open spec fn blob_url_of(base: Seq<char>, blob_id: Seq<char>) -> Seq<char> {
    trim_trailing_slashes(base) + blobs_path() + blob_id
}

/// The URL from which the content of `blob_id` is fetched.
pub fn blob_url(runtime: &KycRuntime, blob_id: &str) -> (r: String)
    ensures
        r@ == blob_url_of(runtime.walrus_aggregator_url@, blob_id@),
{
    let base = runtime.walrus_aggregator_url.as_str();
    let mut end = base.unicode_len();
    proof {
        assert(base@.subrange(0, end as int) =~= base@);
    }
    while end > 0 && base.get_char(end - 1) == '/'
        invariant
            end <= base@.len(),
            trim_trailing_slashes(base@) == trim_trailing_slashes(base@.subrange(0, end as int)),
        decreases end,
    {
        proof {
            let t = base@.subrange(0, end as int);
            assert(t.drop_last() =~= base@.subrange(0, end - 1));
        }
        end = end - 1;
    }
    let mut r = base.substring_char(0, end).to_owned();
    proof {
        let t = base@.subrange(0, end as int);
        if end > 0 {
            assert(t.last() == base@[end - 1]);
        }
        reveal_strlit("/v1/blobs/");
    }
    r.append("/v1/blobs/");
    r.append(blob_id);
    proof {
        assert(r@ =~= blob_url_of(runtime.walrus_aggregator_url@, blob_id@));
    }
    r
}

/// The fetch timeout in milliseconds, at least one.
pub fn fetch_timeout_ms(runtime: &KycRuntime) -> (r: u64)
    ensures
        r == if runtime.walrus_timeout_ms == 0 {
            1
        } else {
            runtime.walrus_timeout_ms
        },
{
    if runtime.walrus_timeout_ms == 0 {
        1
    } else {
        runtime.walrus_timeout_ms
    }
}

/// Relies on std's `SystemTime::now` and `duration_since(UNIX_EPOCH)`: the
/// milliseconds since the Unix epoch, or nothing when the clock is before it.
/// Nothing is claimed of the value.
#[verifier::external_body]
fn millis_since_epoch() -> (r: Option<u128>) {
    SystemTime::now().duration_since(UNIX_EPOCH).ok().map(|d| d.as_millis())
}

/// The timestamp for an elapsed time: its low 64 bits, or zero when none.
pub fn timestamp_from_elapsed(elapsed: Option<u128>) -> (r: u64)
    ensures
        r == match elapsed {
            Some(ms) => ms as u64,
            None => 0,
        },
{
    match elapsed {
        Some(ms) => ms as u64,
        None => 0,
    }
}

/// The current time in milliseconds since the Unix epoch, zero if the clock is
/// before it.
pub fn intent_timestamp() -> (r: u64) {
    timestamp_from_elapsed(millis_since_epoch())
}

/// `resp` is the verified result for `payload`, checked against `provider`
/// under `runtime`.
pub open spec fn response_matches(
    resp: KycResponsePayload,
    payload: KycRequestPayload,
    provider: ProviderRuntime,
    runtime: KycRuntime,
) -> bool {
    &&& resp.userWallet@ == payload.userWallet@
    &&& resp.providerId@ == provider.provider_id@
    &&& resp.kycLevel == payload.kycLevel
    &&& resp.isPep == payload.isPep
    &&& resp.isSanctioned == payload.isSanctioned
    &&& resp.blobId@ == payload.blobId@
    &&& resp.docHash@ == normalized(payload.docHash@)
    &&& resp.walrusCid@ == match payload.walrusBlobObject {
        Some(o) => o@,
        None => payload.blobId@,
    }
    &&& resp.teeMeasurement@ == runtime.enclave_measurement@
    &&& resp.nationality@ == payload.nationality@
    &&& resp.cardArtCid@ == payload.cardArtCid@
}

/// The verified result of a submission.
pub fn build_response(
    payload: &KycRequestPayload,
    provider: &ProviderRuntime,
    runtime: &KycRuntime,
) -> (r: KycResponsePayload)
    ensures
        response_matches(r, *payload, *provider, *runtime),
{
    KycResponsePayload {
        userWallet: payload.userWallet.clone(),
        providerId: provider.provider_id.clone(),
        kycLevel: payload.kycLevel,
        isPep: payload.isPep,
        isSanctioned: payload.isSanctioned,
        blobId: payload.blobId.clone(),
        docHash: normalize_hex(payload.docHash.as_str()),
        walrusCid: walrus_cid(payload),
        teeMeasurement: runtime.enclave_measurement.clone(),
        nationality: payload.nationality.clone(),
        cardArtCid: payload.cardArtCid.clone(),
    }
}

/// First half of processing a submission, before its content is fetched:
/// finds the provider it names and checks its signature.
pub fn check_submission<'a>(runtime: &'a KycRuntime, payload: &KycRequestPayload) -> (r: Result<
    &'a ProviderRuntime,
    EnclaveError,
>)
    ensures
        (r is Err && r->Err_0 is UnknownProvider) <==> forall|i: int|
            0 <= i < runtime.providers@.len() ==> (#[trigger] runtime.providers@[i]).provider_id@
                != payload.providerId@,
        r is Err && r->Err_0 is UnknownProvider ==> r->Err_0->UnknownProvider_0@
            == payload.providerId@,
        !(r is Err && r->Err_0 is UnknownProvider) ==> exists|i: int|
            first_with_id(runtime.providers@, payload.providerId@, i) && match r {
                Ok(p) => *p == runtime.providers@[i] && signature_result(
                    runtime.providers@[i],
                    *payload,
                ) is Ok,
                Err(e) => signature_result(runtime.providers@[i], *payload) == Err::<
                    (),
                    EnclaveError,
                >(e),
            },
{
    let provider = match runtime.find_provider(payload.providerId.as_str()) {
        Some(p) => p,
        None => {
            return Err(EnclaveError::UnknownProvider(payload.providerId.clone()));
        },
    };
    match verify_provider_signature(provider, payload) {
        Ok(()) => Ok(provider),
        Err(e) => Err(e),
    }
}

/// Second half of processing a submission, once its content is fetched:
/// validates the content hash and builds the verified result.
pub fn finish_submission(
    runtime: &KycRuntime,
    provider: &ProviderRuntime,
    payload: &KycRequestPayload,
    content: &[u8],
) -> (r: Result<KycResponsePayload, EnclaveError>)
    ensures
        r is Ok <==> normalized(payload.docHash@) == digest_text(sha256_of(content@)),
        r is Ok ==> response_matches(r->Ok_0, *payload, *provider, *runtime),
        r is Err ==> (r->Err_0 is HashMismatch && r->Err_0->HashMismatch_expected@
            == payload.docHash@ && r->Err_0->HashMismatch_computed@ == digest_text(
            sha256_of(content@),
        )),
{
    validate_doc_hash(payload.docHash.as_str(), content)?;
    Ok(build_response(payload, provider, runtime))
}

/// Scope tag of an intent message.
#[derive(Debug, Clone, Copy, PartialEq, Eq)]
pub enum IntentScope {
    ProcessData,
}

/// A result wrapped for signing: scope tag, timestamp and payload.
#[derive(Debug, Clone)]
pub struct IntentMessage {
    pub intent: IntentScope,
    pub timestamp_ms: u64,
    pub data: KycResponsePayload,
}

impl IntentMessage {
    /// Wraps a verified result under the process-data scope.
    pub fn new(data: KycResponsePayload, timestamp_ms: u64) -> (r: IntentMessage)
        ensures
            r.intent == IntentScope::ProcessData,
            r.timestamp_ms == timestamp_ms,
            r.data == data,
    {
        IntentMessage { intent: IntentScope::ProcessData, timestamp_ms, data }
    }
}

} // verus!
