//! Ledger providers: the contract every chain implementation meets, the
//! account-based implementation, and the factory that picks one from the
//! configuration.
use vstd::prelude::*;

use crate::blockchain::{ChainConfig, ChainType, ConfigIssue, ContentRecord, GatewayError, TransactionResult};
use crate::builder::{
    assemble, build, is_store_transaction, record_instruction, Provisioning, TransactionPlan,
};
use crate::health::{start, ConnectionHealth, DEFAULT_MAX_ATTEMPTS, DEFAULT_RETRY_INTERVAL_SECS};
use crate::identity::{
    base58_public_key, public_key_from_base58, CredentialFile, CredentialPolicy, KeypairStore,
    SigningIdentity,
};
use crate::submitter::{
    finish_submission, lemma_store_transaction_signers, settles, SignedTransaction, SubmitOutcome,
};

verus! {

/// What a chain implementation offers the gateway. A store request is
/// prepared, submitted by the caller, and completed from the outcome.
pub trait BlockchainProvider {
    /// A store transaction, signed and ready to be submitted.
    type Pending;

    /// Whether `p` is the signed transaction that stores `record` under `context`.
    spec fn prepared(&self, record: ContentRecord, context: StoreContext, p: Self::Pending) -> bool;

    /// Builds and signs the transaction that stores `record`. It fails only
    /// with a collision of a generated key, or with an encoding error for a
    /// record that cannot be encoded, which always fails.
    fn store_record(&self, record: &ContentRecord, context: &StoreContext) -> (r: Result<
        Self::Pending,
        GatewayError,
    >)
        ensures
            r matches Ok(p) ==> self.prepared(*record, *context, p),
            r matches Err(e) ==> e == GatewayError::Collision || (e == GatewayError::Encoding
                && !record_instruction(*record).encodable()),
            !record_instruction(*record).encodable() ==> r is Err,
    ;

    /// What the store request yields for how its submission ended.
    fn complete_store(&self, outcome: SubmitOutcome) -> (r: Result<TransactionResult, GatewayError>)
        ensures
            settles(outcome, r),
    ;
}

/// What a store request is prepared with: a recent blockhash to bind the
/// transaction to, and how the storage account comes to exist.
#[derive(Debug, Clone, Copy)]
pub struct StoreContext {
    pub blockhash: [u8; 32],
    pub provisioning: Provisioning,
}

/// A store transaction as built, and as signed.
pub struct PreparedStore {
    pub plan: TransactionPlan,
    pub signed: SignedTransaction,
}

/// Whether `p` is the store transaction for `record` that `provider`
/// prepared under `context`: its storage account differs from the payer and
/// the program id; its instructions are the store transaction for the
/// record's encoding; and what was signed is exactly those instructions,
/// bound to the context's blockhash, signed by the payer (the fee payer)
/// and then the storage account.
pub open spec fn store_prepared(
    provider: SolanaProvider,
    record: ContentRecord,
    context: StoreContext,
    p: PreparedStore,
) -> bool {
    &&& p.plan.storage_key() != provider.payer_key()
    &&& p.plan.storage_key() != provider.program_key()
    &&& p.plan.payer_key() == provider.payer_key()
    &&& is_store_transaction(
        p.plan.spec_instructions(),
        context.provisioning,
        provider.program_key(),
        provider.payer_key(),
        p.plan.storage_key(),
        record_instruction(record).encoding(),
    )
    &&& p.signed.spec_plans() == p.plan.spec_instructions()
    &&& p.signed.spec_blockhash() == context.blockhash@
    &&& p.signed.spec_signers() == seq![provider.payer_key(), p.plan.storage_key()]
}

/// Whether `r` is what building a provider from `config`, `policy` and
/// `credential` may give: configuration errors for a missing or invalid
/// program id and, under the strict policy, for an unusable credential file;
/// a collision when the payer's key is the program id; else a provider whose
/// program id is the configured one and whose payer is the file's keypair
/// when the file holds one.
pub open spec fn builds_provider(
    config: ChainConfig,
    policy: CredentialPolicy,
    credential: CredentialFile,
    r: Result<SolanaProvider, GatewayError>,
) -> bool {
    match config.program_id {
        None => r matches Err(GatewayError::Configuration(ConfigIssue::MissingProgramId)),
        Some(text) => match base58_public_key(text@) {
            None => r matches Err(GatewayError::Configuration(ConfigIssue::InvalidProgramId)),
            Some(program) => {
                &&& (r matches Ok(p) ==> p.wf() && p.payer_key() != p.program_key()
                    && p.program_key() == program && p.spec_config() == config)
                &&& match credential.key() {
                    Some(k) => {
                        &&& k == program ==> (r matches Err(GatewayError::Collision))
                        &&& k != program ==> (r matches Ok(p) && p.payer_key() == k)
                    },
                    None => match policy {
                        CredentialPolicy::Lenient => r is Ok || r matches Err(
                            GatewayError::Collision,
                        ),
                        CredentialPolicy::Strict => match credential {
                            CredentialFile::Contents(_) => r matches Err(
                                GatewayError::Configuration(ConfigIssue::InvalidCredential),
                            ),
                            _ => r matches Err(
                                GatewayError::Configuration(ConfigIssue::MissingCredential),
                            ),
                        },
                    },
                }
            },
        },
    }
}

/// The provider for account-based ledgers: a program id and a payer whose
/// key differs from it.
pub struct SolanaProvider {
    program_id: [u8; 32],
    payer: SigningIdentity,
    config: ChainConfig,
}

impl SolanaProvider {
    /// The payer's key differs from the program id.
    pub closed spec fn wf(&self) -> bool {
        self.payer.key() != self.program_id@
    }

    /// The program id.
    pub closed spec fn program_key(&self) -> Seq<u8> {
        self.program_id@
    }

    /// The payer's key.
    pub closed spec fn payer_key(&self) -> Seq<u8> {
        self.payer.key()
    }

    /// The configuration the provider was built from.
    pub closed spec fn spec_config(&self) -> ChainConfig {
        self.config
    }

    /// Builds the provider, falling back to a generated payer when the
    /// credential file gives no keypair.
    pub fn new(config: ChainConfig, credential: &CredentialFile) -> (r: Result<Self, GatewayError>)
        ensures
            builds_provider(config, CredentialPolicy::Lenient, *credential, r),
    {
        Self::with_policy(config, CredentialPolicy::Lenient, credential)
    }

    /// Builds the provider, treating an unusable credential file as `policy` says.
    pub fn with_policy(
        config: ChainConfig,
        policy: CredentialPolicy,
        credential: &CredentialFile,
    ) -> (r: Result<Self, GatewayError>)
        ensures
            builds_provider(config, policy, *credential, r),
    {
        let program_id = match &config.program_id {
            None => return Err(GatewayError::Configuration(ConfigIssue::MissingProgramId)),
            Some(text) => match public_key_from_base58(text.as_str()) {
                None => return Err(GatewayError::Configuration(ConfigIssue::InvalidProgramId)),
                Some(k) => k,
            },
        };
        let payer = KeypairStore::load(policy, credential)?;
        let payer_key = payer.public_key();
        if crate::builder::keys_equal(&payer_key, &program_id) {
            return Err(GatewayError::Collision);
        }
        Ok(SolanaProvider { program_id, payer, config })
    }

    /// The program id.
    pub fn program_id(&self) -> (r: [u8; 32])
        ensures
            r@ == self.program_key(),
    {
        self.program_id
    }

    /// The payer's public key.
    pub fn payer_public_key(&self) -> (r: [u8; 32])
        ensures
            r@ == self.payer_key(),
    {
        self.payer.public_key()
    }

    /// The configuration the provider was built from.
    pub fn config(&self) -> (r: &ChainConfig)
        ensures
            *r == self.spec_config(),
    {
        &self.config
    }

    /// The wait for the ledger endpoint that runs once at startup: ten
    /// probes, three seconds apart.
    pub fn initialize(&self) -> (r: ConnectionHealth)
        ensures
            r.wf(),
            r@ == start(DEFAULT_MAX_ATTEMPTS as nat),
            r.interval() == DEFAULT_RETRY_INTERVAL_SECS,
    {
        ConnectionHealth::with_defaults()
    }

    /// Builds the store transaction for `record` around the storage account
    /// `storage` and signs it with the payer and that account at the
    /// context's blockhash. It fails with a collision when the storage key is
    /// the payer's key or the program id, else with an encoding error when the
    /// record cannot be encoded, and otherwise succeeds.
    pub fn prepare_store_with(
        &self,
        record: &ContentRecord,
        context: &StoreContext,
        storage: SigningIdentity,
    ) -> (r: Result<PreparedStore, GatewayError>)
        ensures
            (storage.key() == self.payer_key() || storage.key() == self.program_key()) ==> r matches Err(
                GatewayError::Collision,
            ),
            (storage.key() != self.payer_key() && storage.key() != self.program_key()
                && !record_instruction(*record).encodable()) ==> r matches Err(
                GatewayError::Encoding,
            ),
            (storage.key() != self.payer_key() && storage.key() != self.program_key()
                && record_instruction(*record).encodable()) ==> r is Ok,
            r matches Ok(p) ==> store_prepared(*self, *record, *context, p) && p.plan.storage_key()
                == storage.key(),
    {
        let plan = assemble(record, &self.payer, &self.program_id, context.provisioning, storage)?;
        Ok(self.sign_plan(record, context, plan))
    }

    /// Builds the store transaction for `record` around a freshly generated
    /// storage account and signs it with the payer and that account at the
    /// context's blockhash. The only failures are a collision of the
    /// generated key with the payer's key or the program id, and an encoding
    /// error for a record that cannot be encoded, which always fails.
    pub fn prepare_store(&self, record: &ContentRecord, context: &StoreContext) -> (r: Result<
        PreparedStore,
        GatewayError,
    >)
        ensures
            r matches Ok(p) ==> store_prepared(*self, *record, *context, p),
            r matches Err(e) ==> e == GatewayError::Collision || (e == GatewayError::Encoding
                && !record_instruction(*record).encodable()),
            !record_instruction(*record).encodable() ==> r is Err,
    {
        let plan = build(record, &self.payer, &self.program_id, context.provisioning)?;
        Ok(self.sign_plan(record, context, plan))
    }

    /// Signs a built store transaction.
    fn sign_plan(&self, record: &ContentRecord, context: &StoreContext, plan: TransactionPlan) -> (r:
        PreparedStore)
        requires
            plan.storage_key() != self.payer_key(),
            plan.storage_key() != self.program_key(),
            plan.payer_key() == self.payer_key(),
            is_store_transaction(
                plan.spec_instructions(),
                context.provisioning,
                self.program_key(),
                self.payer_key(),
                plan.storage_key(),
                record_instruction(*record).encoding(),
            ),
        ensures
            store_prepared(*self, *record, *context, r),
            r.plan.storage_key() == plan.storage_key(),
    {
        proof {
            lemma_store_transaction_signers(
                plan.spec_instructions(),
                context.provisioning,
                self.program_id@,
                self.payer.key(),
                plan.storage_key(),
                record_instruction(*record).encoding(),
            );
        }
        let signed = plan.sign(&self.payer, context.blockhash);
        PreparedStore { plan, signed }
    }
}

impl BlockchainProvider for SolanaProvider {
    type Pending = PreparedStore;

    open spec fn prepared(&self, record: ContentRecord, context: StoreContext, p: PreparedStore) -> bool {
        store_prepared(*self, record, context, p)
    }

    fn store_record(&self, record: &ContentRecord, context: &StoreContext) -> (r: Result<
        PreparedStore,
        GatewayError,
    >) {
        self.prepare_store(record, context)
    }

    fn complete_store(&self, outcome: SubmitOutcome) -> (r: Result<TransactionResult, GatewayError>) {
        finish_submission(outcome)
    }
}

/// Picks the provider for the configured chain.
pub struct ProviderFactory;

impl ProviderFactory {
    /// The program id that `config` names, checked before anything is read
    /// or fetched: a chain without an implementation, a missing program id
    /// and an invalid one are configuration errors.
    pub fn check(config: &ChainConfig) -> (r: Result<[u8; 32], GatewayError>)
        ensures
            config.chain_type == ChainType::Ethereum ==> r matches Err(
                GatewayError::Configuration(ConfigIssue::UnsupportedChain),
            ),
            config.chain_type == ChainType::Solana ==> match config.program_id {
                None => r matches Err(GatewayError::Configuration(ConfigIssue::MissingProgramId)),
                Some(text) => match base58_public_key(text@) {
                    None => r matches Err(
                        GatewayError::Configuration(ConfigIssue::InvalidProgramId),
                    ),
                    Some(k) => r matches Ok(b) && b@ == k,
                },
            },
    {
        match config.chain_type {
            ChainType::Ethereum => Err(GatewayError::Configuration(ConfigIssue::UnsupportedChain)),
            ChainType::Solana => match &config.program_id {
                None => Err(GatewayError::Configuration(ConfigIssue::MissingProgramId)),
                Some(text) => match public_key_from_base58(text.as_str()) {
                    None => Err(GatewayError::Configuration(ConfigIssue::InvalidProgramId)),
                    Some(k) => Ok(k),
                },
            },
        }
    }

    /// Builds the provider for `config.chain_type`. A chain without an
    /// implementation is a configuration error, reported before anything else.
    pub fn create(
        config: ChainConfig,
        policy: CredentialPolicy,
        credential: &CredentialFile,
    ) -> (r: Result<SolanaProvider, GatewayError>)
        ensures
            config.chain_type == ChainType::Ethereum ==> r matches Err(
                GatewayError::Configuration(ConfigIssue::UnsupportedChain),
            ),
            config.chain_type == ChainType::Solana ==> builds_provider(
                config,
                policy,
                *credential,
                r,
            ),
    {
        match config.chain_type {
            ChainType::Solana => SolanaProvider::with_policy(config, policy, credential),
            ChainType::Ethereum => Err(GatewayError::Configuration(ConfigIssue::UnsupportedChain)),
        }
    }
}

} // verus!
