//! Signing a built transaction and deciding what the ledger's answer to its
//! submission means for the caller.
//!
//! The caller fetches a recent blockhash, has the transaction signed with
//! it, submits it at once and reports how the submission ended. A rejected
//! submission is reported, never retried: a retry with a stale blockhash could
//! store the record twice.
use solana_sdk::instruction::{AccountMeta, Instruction};
use solana_sdk::signature::Signer;
use solana_sdk::transaction::Transaction;
use vstd::prelude::*;

use crate::blockchain::{GatewayError, TransactionResult};
use crate::builder::{is_store_transaction, InstructionPlan, Provisioning, TransactionPlan};
use crate::identity::SigningIdentity;

verus! {

#[verifier::external_type_specification]
#[verifier::external_body]
pub struct ExTransaction(Transaction);

/// Whether every signer that the instructions name is the payer or the
/// storage account, and the storage account is among them.
pub open spec fn signers_match(ixs: Seq<InstructionPlan>, payer: Seq<u8>, storage: Seq<u8>) -> bool {
    &&& forall|k: int, i: int|
        0 <= k < ixs.len() && 0 <= i < ixs[k].accounts@.len()
            && #[trigger] ixs[k].accounts@[i].is_signer ==> (ixs[k].accounts@[i].key@ == payer
            || ixs[k].accounts@[i].key@ == storage)
    &&& exists|k: int, i: int|
        0 <= k < ixs.len() && 0 <= i < ixs[k].accounts@.len()
            && #[trigger] ixs[k].accounts@[i].is_signer && ixs[k].accounts@[i].key@ == storage
}

/// Whether the instructions name few enough accounts that no group of keys in
/// the compiled message (signers, read-only signers, read-only others) can
/// exceed the 255 entries a message header counts: at most two instructions
/// of at most three accounts each.
pub open spec fn within_message_limits(ixs: Seq<InstructionPlan>) -> bool {
    &&& ixs.len() <= 2
    &&& forall|k: int| 0 <= k < ixs.len() ==> (#[trigger] ixs[k]).accounts@.len() <= 3
}

/// A store transaction is signed by exactly the payer and the storage
/// account, and fits in one message.
pub proof fn lemma_store_transaction_signers(
    ixs: Seq<InstructionPlan>,
    provisioning: Provisioning,
    program_id: Seq<u8>,
    payer: Seq<u8>,
    storage: Seq<u8>,
    data: Seq<u8>,
)
    requires
        is_store_transaction(ixs, provisioning, program_id, payer, storage, data),
    ensures
        signers_match(ixs, payer, storage),
        within_message_limits(ixs),
{
    let last = ixs.len() - 1;
    assert(ixs[last].accounts@[1].is_signer && ixs[last].accounts@[1].key@ == storage);
}

/// A signed transaction, ready to be submitted, with what it was made of: its
/// instructions, the blockhash it is bound to, and its signers in order (the
/// first pays the fee).
pub struct SignedTransaction {
    transaction: Transaction,
    signature: String,
    plans: Ghost<Seq<InstructionPlan>>,
    blockhash: Ghost<Seq<u8>>,
    signers: Ghost<Seq<Seq<u8>>>,
}

impl SignedTransaction {
    /// The instructions the transaction carries, in order.
    pub closed spec fn spec_plans(&self) -> Seq<InstructionPlan> {
        self.plans@
    }

    /// The blockhash the transaction is bound to.
    pub closed spec fn spec_blockhash(&self) -> Seq<u8> {
        self.blockhash@
    }

    /// The keys that signed the transaction, the fee payer first.
    pub closed spec fn spec_signers(&self) -> Seq<Seq<u8>> {
        self.signers@
    }

    /// The transaction to submit.
    pub fn transaction(&self) -> &Transaction {
        &self.transaction
    }

    /// The payer's signature in base58: the identifier the ledger will
    /// know the transaction by.
    pub fn signature(&self) -> &str {
        self.signature.as_str()
    }
}

/// Relies on `Transaction::new_signed_with_payer`: it compiles the
/// instructions into one message with the payer first, as fee payer, binds it
/// to `blockhash` and signs it with both keypairs. It panics unless the
/// keypairs are exactly the message's signers (`signers_match`), and when a
/// group of keys in the message exceeds 255 entries (ruled out by
/// `within_message_limits`). The payer's signature comes first; its base58
/// text is the transaction's identifier.
#[verifier::external_body]
fn sign_with_payer(
    plans: &Vec<InstructionPlan>,
    payer: &SigningIdentity,
    storage: &SigningIdentity,
    blockhash: [u8; 32],
) -> (r: SignedTransaction)
    requires
        signers_match(plans@, payer.key(), storage.key()),
        within_message_limits(plans@),
    ensures
        r.spec_plans() == plans@,
        r.spec_blockhash() == blockhash@,
        r.spec_signers() == seq![payer.key(), storage.key()],
{
    let ixs: Vec<Instruction> = plans.iter().map(|p| Instruction {
        program_id: p.program_id.into(),
        accounts: p.accounts.iter().map(|a| AccountMeta { pubkey: a.key.into(), is_signer: a.is_signer, is_writable: a.is_writable }).collect(),
        data: p.data.clone(),
    }).collect();
    let transaction = Transaction::new_signed_with_payer(
        &ixs, Some(&payer.keypair().pubkey()), &[payer.keypair(), storage.keypair()], blockhash.into(),
    );
    let signature = transaction.signatures[0].to_string();
    SignedTransaction { transaction, signature, plans: Ghost(plans@), blockhash: Ghost(blockhash@), signers: Ghost(seq![payer.key(), storage.key()]) }
}

impl TransactionPlan {
    /// Signs the transaction with the payer, as fee payer, and the storage
    /// account, bound to a recent blockhash.
    pub fn sign(&self, payer: &SigningIdentity, blockhash: [u8; 32]) -> (r: SignedTransaction)
        requires
            payer.key() == self.payer_key(),
            signers_match(self.spec_instructions(), self.payer_key(), self.storage_key()),
            within_message_limits(self.spec_instructions()),
        ensures
            r.spec_plans() == self.spec_instructions(),
            r.spec_blockhash() == blockhash@,
            r.spec_signers() == seq![self.payer_key(), self.storage_key()],
    {
        sign_with_payer(self.instructions(), payer, self.storage_identity(), blockhash)
    }
}

/// How a submission ended, as the ledger client reported it.
pub enum SubmitOutcome {
    /// Confirmed; the ledger's identifier of the transaction.
    Confirmed(String),
    /// Refused by the ledger, or the request failed.
    Rejected,
    /// Accepted, but not confirmed within the commitment window.
    TimedOut,
}

/// What a store request yields for a submission outcome: a confirmation
/// with a non-empty identifier is a result carrying that identifier, a
/// confirmation without one and a rejection are submission errors, and a
/// timeout is a confirmation-timeout error.
pub open spec fn settles(outcome: SubmitOutcome, r: Result<TransactionResult, GatewayError>) -> bool {
    match outcome {
        SubmitOutcome::Confirmed(id) => if id@.len() > 0 {
            r matches Ok(t) && t.transaction_id@ == id@ && t.block_height is None
                && t.confirmation_time is None
        } else {
            r matches Err(GatewayError::Submission)
        },
        SubmitOutcome::Rejected => r matches Err(GatewayError::Submission),
        SubmitOutcome::TimedOut => r matches Err(GatewayError::ConfirmationTimeout),
    }
}

/// Turns a submission outcome into the store request's result.
pub fn finish_submission(outcome: SubmitOutcome) -> (r: Result<TransactionResult, GatewayError>)
    ensures
        settles(outcome, r),
{
    match outcome {
        SubmitOutcome::Confirmed(id) => {
            if id.as_str().is_empty() {
                Err(GatewayError::Submission)
            } else {
                Ok(TransactionResult { transaction_id: id, block_height: None, confirmation_time: None })
            }
        },
        SubmitOutcome::Rejected => Err(GatewayError::Submission),
        SubmitOutcome::TimedOut => Err(GatewayError::ConfirmationTimeout),
    }
}

} // verus!
