//! The signed envelope of a verified result: its BCS layout and the
//! enclave's signature over it.
use vstd::prelude::*;
use vstd::bytes::spec_u64_to_le_bytes;
use vstd::utf8::encode_utf8;
use fastcrypto::ed25519::{Ed25519KeyPair, Ed25519PrivateKey, Ed25519Signature};
use fastcrypto::traits::{Signer, ToFromBytes};
use crate::kyc::{IntentMessage, IntentScope, KycResponsePayload};
use crate::ptb::{BCS_MAX_SEQUENCE_LENGTH, uleb128};

verus! {

/// The Ed25519 signature of `msg` under the secret key `sk`.
pub uninterp spec fn ed25519_signature_of(sk: Seq<u8>, msg: Seq<u8>) -> Seq<u8>;

/// Relies on fastcrypto's `Ed25519PrivateKey::from_bytes` (any 32 bytes are a key),
/// `Ed25519KeyPair::from` and `Signer::sign`: Ed25519 signing is deterministic, so
/// the 64 signature bytes depend on the key and the message alone.
#[verifier::external_body]
fn ed25519_sign(sk: &[u8], msg: &[u8]) -> (r: Vec<u8>)
    requires
        sk@.len() == 32,
    ensures
        r@ == ed25519_signature_of(sk@, msg@),
        r@.len() == 64,
{
    match Ed25519PrivateKey::from_bytes(sk) {
        Ok(key) => {
            let sig: Ed25519Signature = Ed25519KeyPair::from(key).sign(msg);
            sig.as_ref().to_vec()
        },
        Err(_) => Vec::new(),
    }
}

/// BCS form of a string: the byte length, then the UTF-8 bytes.
pub open spec fn bcs_string(s: Seq<char>) -> Seq<u8> {
    uleb128(encode_utf8(s).len()) + encode_utf8(s)
}

/// BCS form of a boolean.
pub open spec fn bcs_bool(b: bool) -> Seq<u8> {
    if b {
        seq![1u8]
    } else {
        seq![0u8]
    }
}

/// BCS form of a verified result: its fields in declaration order.
pub open spec fn bcs_response(r: KycResponsePayload) -> Seq<u8> {
    bcs_string(r.userWallet@) + bcs_string(r.providerId@) + seq![r.kycLevel] + bcs_bool(r.isPep)
        + bcs_bool(r.isSanctioned) + bcs_string(r.blobId@) + bcs_string(r.docHash@) + bcs_string(
        r.walrusCid@,
    ) + bcs_string(r.teeMeasurement@) + bcs_string(r.nationality@) + bcs_string(r.cardArtCid@)
}

/// BCS form of an intent scope: its variant index.
pub open spec fn bcs_scope(s: IntentScope) -> Seq<u8> {
    match s {
        IntentScope::ProcessData => seq![0u8],
    }
}

/// The bytes the enclave signs for an intent message.
pub open spec fn bcs_intent(m: IntentMessage) -> Seq<u8> {
    bcs_scope(m.intent) + spec_u64_to_le_bytes(m.timestamp_ms) + bcs_response(m.data)
}

/// Every string of `d` is short enough for BCS.
pub open spec fn intent_encodable(d: KycResponsePayload) -> bool {
    &&& encode_utf8(d.userWallet@).len() <= BCS_MAX_SEQUENCE_LENGTH
    &&& encode_utf8(d.providerId@).len() <= BCS_MAX_SEQUENCE_LENGTH
    &&& encode_utf8(d.blobId@).len() <= BCS_MAX_SEQUENCE_LENGTH
    &&& encode_utf8(d.docHash@).len() <= BCS_MAX_SEQUENCE_LENGTH
    &&& encode_utf8(d.walrusCid@).len() <= BCS_MAX_SEQUENCE_LENGTH
    &&& encode_utf8(d.teeMeasurement@).len() <= BCS_MAX_SEQUENCE_LENGTH
    &&& encode_utf8(d.nationality@).len() <= BCS_MAX_SEQUENCE_LENGTH
    &&& encode_utf8(d.cardArtCid@).len() <= BCS_MAX_SEQUENCE_LENGTH
}

/// Relies on bcs's `to_bytes` for a tuple of a `u8`, a `u64` and a tuple of the
/// result's fields: the parts' BCS forms in order (a `u64` in little-endian, a
/// string as its ULEB128 byte length and UTF-8 bytes, a boolean as one byte); a
/// string longer than `MAX_SEQUENCE_LENGTH` bytes is refused.
#[verifier::external_body]
fn bcs_encode_intent(scope: u8, timestamp_ms: u64, d: &KycResponsePayload) -> (r: Option<Vec<u8>>)
    ensures
        r is Some <==> intent_encodable(*d),
        r is Some ==> r->Some_0@ == seq![scope] + spec_u64_to_le_bytes(timestamp_ms) + bcs_response(
            *d,
        ),
{
    let fields = (
        &d.userWallet, &d.providerId, d.kycLevel, d.isPep, d.isSanctioned, &d.blobId,
        &d.docHash, &d.walrusCid, &d.teeMeasurement, &d.nationality, &d.cardArtCid,
    );
    bcs::to_bytes(&(scope, timestamp_ms, fields)).ok()
}

/// The bytes that the enclave signs for `m`: its BCS form, when every string
/// is short enough to encode.
pub fn intent_signing_bytes(m: &IntentMessage) -> (r: Option<Vec<u8>>)
    ensures
        r is Some <==> intent_encodable(m.data),
        r is Some ==> r->Some_0@ == bcs_intent(*m),
{
    let scope: u8 = match m.intent {
        IntentScope::ProcessData => 0,
    };
    bcs_encode_intent(scope, m.timestamp_ms, &m.data)
}

/// Signs the BCS form of `m` with the enclave's 32-byte secret key.
pub fn sign_intent(sk: &Vec<u8>, m: &IntentMessage) -> (r: Option<Vec<u8>>)
    requires
        sk@.len() == 32,
    ensures
        r is Some <==> intent_encodable(m.data),
        r is Some ==> r->Some_0@ == ed25519_signature_of(sk@, bcs_intent(*m)),
{
    match intent_signing_bytes(m) {
        Some(bytes) => Some(ed25519_sign(sk.as_slice(), bytes.as_slice())),
        None => None,
    }
}

} // verus!
