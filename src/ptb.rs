//! The policy-check transaction template: one pure input per key id, one
//! shared read-only input for the enclave object, and one authorization call
//! per key id, in the order of the key ids.
use vstd::prelude::*;
use sui_sdk_types::Identifier;
use crate::error::EnclaveError;

verus! {

/// Move module of the policy package that authorizes key requests.
pub const POLICY_MODULE: &'static str = "seal_policy";

/// Move function called once per requested key id.
pub const POLICY_FUNCTION: &'static str = "seal_approve";

/// Longest sequence that BCS encodes.
pub const BCS_MAX_SEQUENCE_LENGTH: usize = 2147483647;

/// Highest input index that a transaction argument can name.
pub const MAX_INPUT_INDEX: usize = 65535;

/// ULEB128 encoding of a length.
pub open spec fn uleb128(n: nat) -> Seq<u8>
    decreases n,
{
    if n < 128 {
        seq![n as u8]
    } else {
        seq![(n % 128 + 128) as u8] + uleb128(n / 128)
    }
}

/// BCS encoding of a byte vector: its length, then its bytes.
pub open spec fn bcs_bytes(b: Seq<u8>) -> Seq<u8> {
    uleb128(b.len()) + b
}

pub open spec fn is_ascii_letter(c: char) -> bool {
    ('a' <= c && c <= 'z') || ('A' <= c && c <= 'Z')
}

pub open spec fn is_identifier_char(c: char) -> bool {
    is_ascii_letter(c) || ('0' <= c && c <= '9') || c == '_'
}

/// A Move identifier: 1 to 128 characters from `[A-Za-z0-9_]`, starting with a
/// letter, or with `_` followed by at least one more character.
pub open spec fn move_identifier_valid(s: Seq<char>) -> bool {
    &&& 1 <= s.len() <= 128
    &&& forall|i: int| 0 <= i < s.len() ==> #[trigger] is_identifier_char(s[i])
    &&& is_ascii_letter(s[0]) || (s[0] == '_' && s.len() >= 2)
}

/// The two policy names are Move identifiers.
pub proof fn lemma_policy_names_valid()
    ensures
        move_identifier_valid(POLICY_MODULE@),
        move_identifier_valid(POLICY_FUNCTION@),
{
    reveal_strlit("seal_policy");
    reveal_strlit("seal_approve");
    let m = POLICY_MODULE@;
    let f = POLICY_FUNCTION@;
    assert(m =~= seq!['s', 'e', 'a', 'l', '_', 'p', 'o', 'l', 'i', 'c', 'y']);
    assert(f =~= seq!['s', 'e', 'a', 'l', '_', 'a', 'p', 'p', 'r', 'o', 'v', 'e']);
    assert forall|i: int| 0 <= i < m.len() implies #[trigger] is_identifier_char(m[i]) by {}
    assert forall|i: int| 0 <= i < f.len() implies #[trigger] is_identifier_char(f[i]) by {}
}

/// Relies on bcs's `to_bytes` for a `Vec<u8>`: the ULEB128 length, then the bytes;
/// a sequence longer than `MAX_SEQUENCE_LENGTH` is refused.
#[verifier::external_body]
fn bcs_encode_bytes(b: &Vec<u8>) -> (r: Option<Vec<u8>>)
    ensures
        r is Some <==> b@.len() <= BCS_MAX_SEQUENCE_LENGTH,
        r is Some ==> r->Some_0@ == bcs_bytes(b@),
{
    bcs::to_bytes(b).ok()
}

/// Relies on sui-sdk-types' `Identifier::new`, whose parser accepts exactly the
/// identifiers described by `move_identifier_valid`.
#[verifier::external_body]
fn is_move_identifier(s: &str) -> (r: bool)
    ensures
        r == move_identifier_valid(s@),
{
    Identifier::new(s).is_ok()
}

/// One input of the template.
#[derive(Debug, PartialEq, Eq)]
pub enum PtbInput {
    /// Serialized bytes handed to the call as a plain value.
    Pure { value: Vec<u8> },
    /// A shared object, by id and the version at which it became shared.
    Shared { object_id: Vec<u8>, initial_shared_version: u64, mutable: bool },
}

/// One Move call of the template; each argument names an input by index.
#[derive(Debug, PartialEq, Eq)]
pub struct MoveCallCommand {
    pub package: Vec<u8>,
    pub module: String,
    pub function: String,
    pub arguments: Vec<u16>,
}

/// A programmable transaction: its inputs and its commands.
#[derive(Debug, PartialEq, Eq)]
pub struct ProgrammableTransaction {
    pub inputs: Vec<PtbInput>,
    pub commands: Vec<MoveCallCommand>,
}

/// When a template can be built for `ids`.
pub open spec fn template_possible(ids: Seq<Vec<u8>>) -> bool {
    &&& ids.len() > 0
    &&& ids.len() <= MAX_INPUT_INDEX
    &&& forall|i: int| 0 <= i < ids.len() ==> (#[trigger] ids[i])@.len() <= BCS_MAX_SEQUENCE_LENGTH
}

/// `t` is the authorization template for `ids` over the enclave object.
pub open spec fn is_template(
    t: ProgrammableTransaction,
    package_id: Seq<u8>,
    enclave_object_id: Seq<u8>,
    initial_shared_version: u64,
    ids: Seq<Vec<u8>>,
) -> bool {
    let n = ids.len();
    &&& t.inputs@.len() == n + 1
    &&& forall|i: int|
        0 <= i < n ==> match #[trigger] t.inputs@[i] {
            PtbInput::Pure { value } => value@ == bcs_bytes(ids[i]@),
            _ => false,
        }
    &&& match t.inputs@[n as int] {
        PtbInput::Shared { object_id, initial_shared_version: v, mutable } => object_id@
            == enclave_object_id && v == initial_shared_version && !mutable,
        _ => false,
    }
    &&& t.commands@.len() == n
    &&& forall|i: int|
        0 <= i < n ==> {
            let c = #[trigger] t.commands@[i];
            &&& c.package@ == package_id
            &&& c.module@ == POLICY_MODULE@
            &&& c.function@ == POLICY_FUNCTION@
            &&& c.arguments@ == seq![i as u16, n as u16]
        }
}

/// Builds the policy-check template for `ids`. Fails when `ids` is empty, when
/// there are more ids than an input index can name, when a policy identifier
/// is not a Move identifier, or when a key id is too long to encode.
pub fn create_ptb(
    package_id: &Vec<u8>,
    enclave_object_id: &Vec<u8>,
    initial_shared_version: u64,
    ids: &Vec<Vec<u8>>,
) -> (r: Result<ProgrammableTransaction, EnclaveError>)
    ensures
        r is Ok <==> template_possible(ids@),
        r is Ok ==> is_template(
            r->Ok_0,
            package_id@,
            enclave_object_id@,
            initial_shared_version,
            ids@,
        ),
        ids@.len() == 0 ==> r == Err::<ProgrammableTransaction, EnclaveError>(
            EnclaveError::NoKeyIds,
        ),
        ids@.len() > MAX_INPUT_INDEX ==> r == Err::<ProgrammableTransaction, EnclaveError>(
            EnclaveError::TooManyKeyIds,
        ),
{
    let n = ids.len();
    if n == 0 {
        return Err(EnclaveError::NoKeyIds);
    }
    if n > MAX_INPUT_INDEX {
        return Err(EnclaveError::TooManyKeyIds);
    }
    proof {
        lemma_policy_names_valid();
    }
    if !is_move_identifier(POLICY_MODULE) {
        return Err(EnclaveError::InvalidIdentifier(String::from_str(POLICY_MODULE)));
    }
    if !is_move_identifier(POLICY_FUNCTION) {
        return Err(EnclaveError::InvalidIdentifier(String::from_str(POLICY_FUNCTION)));
    }
    let mut inputs: Vec<PtbInput> = Vec::new();
    let mut i: usize = 0;
    while i < n
        invariant
            n == ids@.len(),
            n <= MAX_INPUT_INDEX,
            i <= n,
            inputs@.len() == i,
            forall|j: int|
                0 <= j < i ==> match #[trigger] inputs@[j] {
                    PtbInput::Pure { value } => value@ == bcs_bytes(ids@[j]@),
                    _ => false,
                },
            forall|j: int| 0 <= j < i ==> (#[trigger] ids@[j])@.len() <= BCS_MAX_SEQUENCE_LENGTH,
        decreases n - i,
    {
        match bcs_encode_bytes(&ids[i]) {
            Some(value) => {
                inputs.push(PtbInput::Pure { value });
            },
            None => {
                return Err(EnclaveError::InvalidKeyId);
            },
        }
        i = i + 1;
    }
    inputs.push(
        PtbInput::Shared {
            object_id: enclave_object_id.clone(),
            initial_shared_version,
            mutable: false,
        },
    );
    let mut commands: Vec<MoveCallCommand> = Vec::new();
    let enclave_index = n as u16;
    let mut k: usize = 0;
    while k < n
        invariant
            n == ids@.len(),
            n <= MAX_INPUT_INDEX,
            enclave_index == n as u16,
            k <= n,
            commands@.len() == k,
            forall|j: int|
                0 <= j < k ==> {
                    let c = #[trigger] commands@[j];
                    &&& c.package@ == package_id@
                    &&& c.module@ == POLICY_MODULE@
                    &&& c.function@ == POLICY_FUNCTION@
                    &&& c.arguments@ == seq![j as u16, n as u16]
                },
        decreases n - k,
    {
        let mut arguments: Vec<u16> = Vec::new();
        arguments.push(k as u16);
        arguments.push(enclave_index);
        commands.push(
            MoveCallCommand {
                package: package_id.clone(),
                module: String::from_str(POLICY_MODULE),
                function: String::from_str(POLICY_FUNCTION),
                arguments,
            },
        );
        proof {
            assert(commands@[k as int].arguments@ =~= seq![k as u16, n as u16]);
        }
        k = k + 1;
    }
    Ok(ProgrammableTransaction { inputs, commands })
}

} // verus!
