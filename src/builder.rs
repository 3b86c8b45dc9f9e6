//! Building the store transaction: a fresh storage account, checked against
//! the keys it must differ from, and the program instruction that carries
//! the encoded record.
//!
//! Two ways of providing the storage account are supported, one per
//! deployment, to match what the target program expects. Either the program
//! creates the account itself, and the transaction holds the store
//! instruction alone; or the transaction first creates the account, funded
//! with a given balance, sized to the encoded record and owned by the
//! program. In both the payer and the storage account sign, and the store
//! instruction passes the system program along.
use solana_sdk::pubkey::Pubkey;
use vstd::bytes::*;
use vstd::prelude::*;

use crate::blockchain::{ContentRecord, GatewayError};
use crate::codec::{ProofInstruction, ProofInstructionView};
use crate::identity::{generate_identity, SigningIdentity};

verus! {

/// One account that an instruction refers to.
#[derive(Debug, Clone, Copy)]
pub struct AccountRef {
    pub key: [u8; 32],
    pub is_signer: bool,
    pub is_writable: bool,
}

/// A program instruction: the program, the accounts it touches, its data.
#[derive(Debug, Clone)]
pub struct InstructionPlan {
    pub program_id: [u8; 32],
    pub accounts: Vec<AccountRef>,
    pub data: Vec<u8>,
}

/// Whether `a` refers to `key` with the given signer and writable flags.
pub open spec fn account_is(a: AccountRef, key: Seq<u8>, signer: bool, writable: bool) -> bool {
    a.key@ == key && a.is_signer == signer && a.is_writable == writable
}

/// The id of the system program: 32 zero bytes.
pub open spec fn system_program_key() -> Seq<u8> {
    Seq::new(32, |i: int| 0u8)
}

/// Whether `p` is the store instruction: `data` for `program_id`, with the
/// payer (signer, writable), the storage account (signer, writable) and the
/// system program (read-only), in that order.
pub open spec fn is_store_instruction(
    p: InstructionPlan,
    program_id: Seq<u8>,
    payer: Seq<u8>,
    storage: Seq<u8>,
    data: Seq<u8>,
) -> bool {
    &&& p.program_id@ == program_id
    &&& p.accounts@.len() == 3
    &&& account_is(p.accounts@[0], payer, true, true)
    &&& account_is(p.accounts@[1], storage, true, true)
    &&& account_is(p.accounts@[2], system_program_key(), false, false)
    &&& p.data@ == data
}

/// How the storage account comes to exist.
#[derive(Debug, Clone, Copy, PartialEq, Eq, Structural)]
pub enum Provisioning {
    /// The target program creates the account when it stores the record.
    ProgramCreates,
    /// The transaction creates the account first, funded with `lamports`
    /// (the balance that keeps an account of the record's size alive).
    CreateAccount { lamports: u64 },
}

/// The data of the system program's account-creation instruction: variant
/// index 0 as a little-endian `u32`, then `lamports` and `space` as
/// little-endian `u64`, then the owner's 32 bytes.
pub open spec fn create_account_data(lamports: u64, space: u64, owner: Seq<u8>) -> Seq<u8> {
    spec_u32_to_le_bytes(0) + spec_u64_to_le_bytes(lamports) + spec_u64_to_le_bytes(space) + owner
}

/// Whether `p` is the system program's instruction that creates account
/// `to`, funded by `from` with `lamports`, with `space` bytes, owned by `owner`.
pub open spec fn is_create_account(
    p: InstructionPlan,
    from: Seq<u8>,
    to: Seq<u8>,
    lamports: u64,
    space: u64,
    owner: Seq<u8>,
) -> bool {
    &&& p.program_id@ == system_program_key()
    &&& p.accounts@.len() == 2
    &&& account_is(p.accounts@[0], from, true, true)
    &&& account_is(p.accounts@[1], to, true, true)
    &&& p.data@ == create_account_data(lamports, space, owner)
}

/// Whether `ixs` is the store transaction's instruction list under
/// `provisioning`: the store instruction for `data`, preceded, when the
/// transaction creates the account, by that creation with `data`'s length as
/// the account's size and the program as its owner.
pub open spec fn is_store_transaction(
    ixs: Seq<InstructionPlan>,
    provisioning: Provisioning,
    program_id: Seq<u8>,
    payer: Seq<u8>,
    storage: Seq<u8>,
    data: Seq<u8>,
) -> bool {
    match provisioning {
        Provisioning::ProgramCreates => {
            &&& ixs.len() == 1
            &&& is_store_instruction(ixs[0], program_id, payer, storage, data)
        },
        Provisioning::CreateAccount { lamports } => {
            &&& ixs.len() == 2
            &&& is_create_account(ixs[0], payer, storage, lamports, data.len() as u64, program_id)
            &&& is_store_instruction(ixs[1], program_id, payer, storage, data)
        },
    }
}

/// The instruction that a record is stored with.
pub open spec fn record_instruction(record: ContentRecord) -> ProofInstructionView {
    ProofInstructionView::StoreProof {
        url: record.url@,
        content_hash: record.content_hash@,
        content_length: record.content_length,
    }
}

/// Relies on `system_program::ID`, declared as "11111111111111111111111111111111",
/// which is 32 zero bytes.
#[verifier::external_body]
fn system_program_id() -> (r: [u8; 32])
    ensures
        r@ == system_program_key(),
{
    solana_sdk::system_program::ID.to_bytes()
}

/// Relies on `system_instruction::create_account`: the system program's
/// instruction with the funding account and the new account, both signing
/// and writable, and the bincode encoding of `CreateAccount { lamports,
/// space, owner }` as data. The instruction is taken out as plain values.
#[verifier::external_body]
fn create_account_instruction(
    from: [u8; 32],
    to: [u8; 32],
    lamports: u64,
    space: u64,
    owner: [u8; 32],
) -> (r: InstructionPlan)
    ensures
        r.program_id@ == system_program_key(),
        r.accounts@.len() == 2,
        account_is(r.accounts@[0], from@, true, true),
        account_is(r.accounts@[1], to@, true, true),
        r.data@ == spec_u32_to_le_bytes(0) + spec_u64_to_le_bytes(lamports) + spec_u64_to_le_bytes(
            space,
        ) + owner@,
{
    #[allow(deprecated)]
    let ix = solana_sdk::system_instruction::create_account(
        &Pubkey::new_from_array(from), &Pubkey::new_from_array(to), lamports, space, &Pubkey::new_from_array(owner),
    );
    let accounts = ix.accounts.iter().map(
        |m| AccountRef { key: m.pubkey.to_bytes(), is_signer: m.is_signer, is_writable: m.is_writable },
    ).collect();
    InstructionPlan { program_id: ix.program_id.to_bytes(), accounts, data: ix.data }
}

/// Whether two keys are equal.
pub fn keys_equal(a: &[u8; 32], b: &[u8; 32]) -> (r: bool)
    ensures
        r == (a@ == b@),
{
    let mut i: usize = 0;
    while i < 32
        invariant
            0 <= i <= 32,
            a@.len() == 32,
            b@.len() == 32,
            forall|j: int| 0 <= j < i ==> a@[j] == b@[j],
        decreases 32 - i,
    {
        if a[i] != b[i] {
            return false;
        }
        i = i + 1;
    }
    assert(a@ =~= b@);
    true
}

/// Fails with a collision when `candidate` equals the payer's key or the program id.
pub fn check_distinct(candidate: &[u8; 32], payer: &[u8; 32], program_id: &[u8; 32]) -> (r: Result<
    (),
    GatewayError,
>)
    ensures
        r is Ok <==> (candidate@ != payer@ && candidate@ != program_id@),
        r matches Err(e) ==> e == GatewayError::Collision,
{
    if keys_equal(candidate, payer) || keys_equal(candidate, program_id) {
        Err(GatewayError::Collision)
    } else {
        Ok(())
    }
}

/// The store instruction for `data`.
pub fn store_instruction(
    program_id: [u8; 32],
    payer: [u8; 32],
    storage: [u8; 32],
    data: Vec<u8>,
) -> (r: InstructionPlan)
    ensures
        is_store_instruction(r, program_id@, payer@, storage@, data@),
{
    let mut accounts: Vec<AccountRef> = Vec::new();
    accounts.push(AccountRef { key: payer, is_signer: true, is_writable: true });
    accounts.push(AccountRef { key: storage, is_signer: true, is_writable: true });
    accounts.push(AccountRef { key: system_program_id(), is_signer: false, is_writable: false });
    InstructionPlan { program_id, accounts, data }
}

/// A built store transaction, not yet signed: its instructions and the
/// storage account that signs it beside the payer.
pub struct TransactionPlan {
    instructions: Vec<InstructionPlan>,
    payer: [u8; 32],
    storage: SigningIdentity,
}

impl TransactionPlan {
    /// The instructions to be signed, in order.
    pub closed spec fn spec_instructions(&self) -> Seq<InstructionPlan> {
        self.instructions@
    }

    /// The payer's key.
    pub closed spec fn payer_key(&self) -> Seq<u8> {
        self.payer@
    }

    /// The storage account's key.
    pub closed spec fn storage_key(&self) -> Seq<u8> {
        self.storage.key()
    }

    /// The instructions to be signed, in order.
    pub fn instructions(&self) -> (r: &Vec<InstructionPlan>)
        ensures
            r@ == self.spec_instructions(),
    {
        &self.instructions
    }

    /// The storage account's public key.
    pub fn storage_account(&self) -> (r: [u8; 32])
        ensures
            r@ == self.storage_key(),
    {
        self.storage.public_key()
    }

    /// The storage account's identity, which signs beside the payer.
    pub fn storage_identity(&self) -> (r: &SigningIdentity)
        ensures
            r.key() == self.storage_key(),
    {
        &self.storage
    }
}

/// The size of the account that stores `record`: the length of its encoding.
pub fn storage_space(record: &ContentRecord) -> (r: Result<u64, GatewayError>)
    ensures
        record_instruction(*record).encodable() ==> (r matches Ok(n) && n == record_instruction(
            *record,
        ).encoding().len()),
        !record_instruction(*record).encodable() ==> r matches Err(GatewayError::Encoding),
{
    let instruction = ProofInstruction::store_proof(
        record.url.as_str(),
        record.content_hash.as_str(),
        record.content_length,
    );
    match instruction.try_to_vec() {
        Ok(d) => Ok(d.len() as u64),
        Err(_) => Err(GatewayError::Encoding),
    }
}

/// Builds the store transaction for `record` around a given storage account.
/// It fails with a collision when that account's key equals the payer's key
/// or the program id, else with an encoding error when the record cannot be
/// encoded.
pub fn assemble(
    record: &ContentRecord,
    payer: &SigningIdentity,
    program_id: &[u8; 32],
    provisioning: Provisioning,
    storage: SigningIdentity,
) -> (r: Result<TransactionPlan, GatewayError>)
    ensures
        (storage.key() == payer.key() || storage.key() == program_id@) ==> r matches Err(
            GatewayError::Collision,
        ),
        (storage.key() != payer.key() && storage.key() != program_id@ && !record_instruction(
            *record,
        ).encodable()) ==> r matches Err(GatewayError::Encoding),
        (storage.key() != payer.key() && storage.key() != program_id@ && record_instruction(
            *record,
        ).encodable()) ==> r is Ok,
        r matches Ok(p) ==> {
            &&& p.storage_key() == storage.key()
            &&& p.payer_key() == payer.key()
            &&& is_store_transaction(
                p.spec_instructions(),
                provisioning,
                program_id@,
                payer.key(),
                storage.key(),
                record_instruction(*record).encoding(),
            )
        },
{
    let payer_key = payer.public_key();
    let storage_key = storage.public_key();
    check_distinct(&storage_key, &payer_key, program_id)?;
    let instruction = ProofInstruction::store_proof(
        record.url.as_str(),
        record.content_hash.as_str(),
        record.content_length,
    );
    let data = match instruction.try_to_vec() {
        Ok(d) => d,
        Err(_) => return Err(GatewayError::Encoding),
    };
    let space = data.len() as u64;
    let mut instructions: Vec<InstructionPlan> = Vec::new();
    match provisioning {
        Provisioning::ProgramCreates => {},
        Provisioning::CreateAccount { lamports } => {
            instructions.push(
                create_account_instruction(payer_key, storage_key, lamports, space, *program_id),
            );
        },
    }
    instructions.push(store_instruction(*program_id, payer_key, storage_key, data));
    Ok(TransactionPlan { instructions, payer: payer_key, storage })
}

/// Builds the store transaction for `record` around a freshly generated
/// storage account. A transaction that is built has a storage account whose
/// key differs from the payer's key and from the program id.
pub fn build(
    record: &ContentRecord,
    payer: &SigningIdentity,
    program_id: &[u8; 32],
    provisioning: Provisioning,
) -> (r: Result<TransactionPlan, GatewayError>)
    ensures
        r matches Ok(p) ==> {
            &&& p.storage_key() != payer.key()
            &&& p.storage_key() != program_id@
            &&& p.payer_key() == payer.key()
            &&& is_store_transaction(
                p.spec_instructions(),
                provisioning,
                program_id@,
                payer.key(),
                p.storage_key(),
                record_instruction(*record).encoding(),
            )
        },
        r matches Err(e) ==> e == GatewayError::Collision || (e == GatewayError::Encoding
            && !record_instruction(*record).encodable()),
        !record_instruction(*record).encodable() ==> r is Err,
{
    let storage = generate_identity();
    assemble(record, payer, program_id, provisioning, storage)
}

} // verus!
