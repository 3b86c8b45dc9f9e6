use chain_gateway::blockchain::{ChainConfig, ChainType, ConfigIssue, ContentRecord, GatewayError};
use chain_gateway::builder::{check_distinct, keys_equal, storage_space, store_instruction, Provisioning};
use chain_gateway::codec::ProofInstruction;
use chain_gateway::gateway::{require_record, retrieve_reply, rpc_code, store_reply, RpcCode};
use chain_gateway::identity::{identity_from_bytes, CredentialFile, CredentialPolicy};
use chain_gateway::provider::{BlockchainProvider, ProviderFactory, SolanaProvider, StoreContext};
use chain_gateway::submitter::{finish_submission, SubmitOutcome};
use solana_sdk::signature::{Keypair, Signer};

const PROGRAM_ID: &str = "6F8VF9413BrwBYLPndCbKTB74bbzDCdv335jToYzCA3D";

fn config(program_id: Option<&str>, chain_type: ChainType) -> ChainConfig {
    ChainConfig {
        network_url: "http://localhost:8899".to_string(),
        program_id: program_id.map(|p| p.to_string()),
        private_key_path: None,
        chain_type,
    }
}

fn context(blockhash: u8, provisioning: Provisioning) -> StoreContext {
    StoreContext { blockhash: [blockhash; 32], provisioning }
}

fn record() -> ContentRecord {
    ContentRecord {
        uid: "abc".to_string(),
        url: "https://x.test".to_string(),
        content_hash: "deadbeef".to_string(),
        content_length: 42,
        created_at: "2025-01-01T00:00:00Z".to_string(),
    }
}

#[test]
fn keys_equal_compares_every_byte() {
    let a = [5u8; 32];
    let mut b = a;
    assert!(keys_equal(&a, &b));
    b[31] = 6;
    assert!(!keys_equal(&a, &b));
}

#[test]
fn check_distinct_reports_collisions() {
    let k = [1u8; 32];
    assert_eq!(check_distinct(&k, &k, &[2u8; 32]), Err(GatewayError::Collision));
    assert_eq!(check_distinct(&k, &[2u8; 32], &k), Err(GatewayError::Collision));
    assert_eq!(check_distinct(&k, &[2u8; 32], &[3u8; 32]), Ok(()));
}

#[test]
fn store_instruction_orders_accounts() {
    let plan = store_instruction([9u8; 32], [1u8; 32], [2u8; 32], vec![0, 1, 2]);
    assert_eq!(plan.program_id, [9u8; 32]);
    assert_eq!(plan.accounts.len(), 3);
    assert_eq!(plan.accounts[0].key, [1u8; 32]);
    assert!(plan.accounts[0].is_signer && plan.accounts[0].is_writable);
    assert_eq!(plan.accounts[1].key, [2u8; 32]);
    assert!(plan.accounts[1].is_signer && plan.accounts[1].is_writable);
    assert_eq!(plan.accounts[2].key, solana_sdk::system_program::ID.to_bytes());
    assert_eq!(plan.accounts[2].key, [0u8; 32]);
    assert!(!plan.accounts[2].is_signer && !plan.accounts[2].is_writable);
    assert_eq!(plan.data, vec![0, 1, 2]);
}

#[test]
fn storage_accounts_never_collide_over_many_generations() {
    let provider = SolanaProvider::new(config(Some(PROGRAM_ID), ChainType::Solana), &CredentialFile::NotConfigured).unwrap();
    let payer = provider.payer_public_key();
    let program = provider.program_id();
    for _ in 0..200 {
        let prepared = provider.prepare_store(&record(), &context(3, Provisioning::ProgramCreates)).unwrap();
        let storage = prepared.plan.storage_account();
        assert_ne!(storage, payer);
        assert_ne!(storage, program);
    }
}

#[test]
fn end_to_end_store_against_confirming_ledger() {
    let provider = SolanaProvider::new(config(Some(PROGRAM_ID), ChainType::Solana), &CredentialFile::Unreadable).unwrap();
    let prepared = provider.store_record(&record(), &context(7, Provisioning::ProgramCreates)).unwrap();
    let expected = ProofInstruction::store_proof("https://x.test", "deadbeef", 42).try_to_vec().unwrap();
    assert_eq!(prepared.plan.instructions().len(), 1);
    assert_eq!(prepared.plan.instructions()[0].data, expected);
    let tx = prepared.signed.transaction();
    assert_eq!(tx.signatures.len(), 2);
    assert_eq!(tx.message.account_keys[0].to_bytes(), provider.payer_public_key());
    assert_eq!(tx.signatures[0].to_string(), prepared.signed.signature());
    let ledger_id = prepared.signed.signature().to_string();
    let result = provider.complete_store(SubmitOutcome::Confirmed(ledger_id.clone())).unwrap();
    assert!(!result.transaction_id.is_empty());
    assert_eq!(result.transaction_id, ledger_id);
    assert_eq!(result.block_height, None);
    assert_eq!(result.confirmation_time, None);
    let reply = store_reply(Ok((result, prepared.plan.storage_account()))).unwrap();
    assert_eq!(reply.account_address, prepared.plan.storage_account());
    assert!(reply.success);
    assert_eq!(reply.transaction_id, ledger_id);
}

#[test]
fn submission_failures_are_typed() {
    assert!(matches!(finish_submission(SubmitOutcome::Rejected), Err(GatewayError::Submission)));
    assert!(matches!(finish_submission(SubmitOutcome::TimedOut), Err(GatewayError::ConfirmationTimeout)));
    assert!(matches!(finish_submission(SubmitOutcome::Confirmed(String::new())), Err(GatewayError::Submission)));
}

#[test]
fn missing_program_id_is_configuration_error() {
    let r = SolanaProvider::new(config(None, ChainType::Solana), &CredentialFile::NotConfigured);
    assert!(matches!(r, Err(GatewayError::Configuration(ConfigIssue::MissingProgramId))));
}

#[test]
fn invalid_program_id_is_configuration_error() {
    let r = SolanaProvider::new(config(Some("not-a-key!"), ChainType::Solana), &CredentialFile::NotConfigured);
    assert!(matches!(r, Err(GatewayError::Configuration(ConfigIssue::InvalidProgramId))));
}

#[test]
fn unsupported_chain_is_configuration_error() {
    let r = ProviderFactory::create(config(Some(PROGRAM_ID), ChainType::Ethereum), CredentialPolicy::Lenient, &CredentialFile::NotConfigured);
    assert!(matches!(r, Err(GatewayError::Configuration(ConfigIssue::UnsupportedChain))));
}

#[test]
fn strict_factory_requires_credential() {
    let r = ProviderFactory::create(config(Some(PROGRAM_ID), ChainType::Solana), CredentialPolicy::Strict, &CredentialFile::Unreadable);
    assert!(matches!(r, Err(GatewayError::Configuration(ConfigIssue::MissingCredential))));
}

#[test]
fn payer_equal_to_program_id_is_collision() {
    let keypair = Keypair::new();
    let program = keypair.pubkey().to_string();
    let file = CredentialFile::Contents(format!("{:?}", keypair.to_bytes().to_vec()));
    let r = SolanaProvider::new(config(Some(&program), ChainType::Solana), &file);
    assert!(matches!(r, Err(GatewayError::Collision)));
}

#[test]
fn provider_uses_credential_keypair() {
    let keypair = Keypair::new();
    let file = CredentialFile::Contents(format!("{:?}", keypair.to_bytes().to_vec()));
    let provider = ProviderFactory::create(config(Some(PROGRAM_ID), ChainType::Solana), CredentialPolicy::Strict, &file).unwrap();
    assert_eq!(provider.payer_public_key(), keypair.pubkey().to_bytes());
    assert_eq!(provider.initialize().attempts(), 0);
}

#[test]
fn store_without_record_is_invalid_argument() {
    assert!(matches!(require_record(None), Err(RpcCode::InvalidArgument)));
    assert_eq!(require_record(Some(record())).unwrap().uid, "abc");
}

#[test]
fn retrieve_of_unknown_id_is_not_found() {
    assert!(matches!(retrieve_reply(Ok(None)), Err(RpcCode::NotFound)));
    assert!(matches!(retrieve_reply(Err(GatewayError::Submission)), Err(RpcCode::Internal)));
    assert_eq!(retrieve_reply(Ok(Some(record()))).unwrap().url, "https://x.test");
}

#[test]
fn failures_cross_the_boundary_as_categories() {
    assert_eq!(rpc_code(GatewayError::NotFound), RpcCode::NotFound);
    assert_eq!(rpc_code(GatewayError::Collision), RpcCode::Internal);
    assert!(matches!(store_reply(Err(GatewayError::Submission)), Err(RpcCode::Internal)));
}

#[test]
fn create_account_provisioning_funds_and_sizes_storage() {
    let provider = SolanaProvider::new(config(Some(PROGRAM_ID), ChainType::Solana), &CredentialFile::NotConfigured).unwrap();
    let lamports: u64 = 1_162_560;
    let prepared = provider.prepare_store(&record(), &context(9, Provisioning::CreateAccount { lamports })).unwrap();
    let ixs = prepared.plan.instructions();
    assert_eq!(ixs.len(), 2);
    let create = &ixs[0];
    assert_eq!(create.program_id, [0u8; 32]);
    assert_eq!(create.accounts.len(), 2);
    assert_eq!(create.accounts[0].key, provider.payer_public_key());
    assert_eq!(create.accounts[1].key, prepared.plan.storage_account());
    assert!(create.accounts.iter().all(|a| a.is_signer && a.is_writable));
    let mut data = vec![0u8, 0, 0, 0];
    data.extend_from_slice(&lamports.to_le_bytes());
    data.extend_from_slice(&39u64.to_le_bytes());
    data.extend_from_slice(&provider.program_id());
    assert_eq!(create.data, data);
    assert_eq!(ixs[1].data.len(), 39);
    assert_eq!(ixs[1].accounts[1].key, prepared.plan.storage_account());
    let tx = prepared.signed.transaction();
    assert_eq!(tx.message.instructions.len(), 2);
    assert_eq!(tx.signatures.len(), 2);
}

#[test]
fn storage_space_is_encoded_length() {
    assert_eq!(storage_space(&record()), Ok(39));
}

#[test]
fn end_to_end_store_with_given_storage_account() {
    let provider = SolanaProvider::new(config(Some(PROGRAM_ID), ChainType::Solana), &CredentialFile::NotConfigured).unwrap();
    let storage_keypair = Keypair::new();
    let storage = identity_from_bytes(&storage_keypair.to_bytes()).unwrap();
    let prepared = provider.prepare_store_with(&record(), &context(5, Provisioning::ProgramCreates), storage).unwrap();
    assert_eq!(prepared.plan.storage_account(), storage_keypair.pubkey().to_bytes());
    let tx = prepared.signed.transaction();
    assert_eq!(tx.message.recent_blockhash.to_bytes(), [5u8; 32]);
    assert_eq!(tx.message.account_keys[0].to_bytes(), provider.payer_public_key());
    assert!(tx.verify().is_ok());
    let id = prepared.signed.signature().to_string();
    let result = provider.complete_store(SubmitOutcome::Confirmed(id.clone())).unwrap();
    assert!(!result.transaction_id.is_empty());
    assert_eq!(result.transaction_id, id);
}

#[test]
fn storage_account_equal_to_payer_is_collision() {
    let payer_keypair = Keypair::new();
    let file = CredentialFile::Contents(format!("{:?}", payer_keypair.to_bytes().to_vec()));
    let provider = SolanaProvider::new(config(Some(PROGRAM_ID), ChainType::Solana), &file).unwrap();
    let storage = identity_from_bytes(&payer_keypair.to_bytes()).unwrap();
    let r = provider.prepare_store_with(&record(), &context(5, Provisioning::ProgramCreates), storage);
    assert!(matches!(r, Err(GatewayError::Collision)));
}

#[test]
fn config_check_runs_before_any_read() {
    assert_eq!(ProviderFactory::check(&config(None, ChainType::Solana)), Err(GatewayError::Configuration(ConfigIssue::MissingProgramId)));
    assert_eq!(ProviderFactory::check(&config(Some("0OIl"), ChainType::Solana)), Err(GatewayError::Configuration(ConfigIssue::InvalidProgramId)));
    assert_eq!(ProviderFactory::check(&config(Some(PROGRAM_ID), ChainType::Ethereum)), Err(GatewayError::Configuration(ConfigIssue::UnsupportedChain)));
    let key = ProviderFactory::check(&config(Some(PROGRAM_ID), ChainType::Solana)).unwrap();
    assert_eq!(solana_sdk::pubkey::Pubkey::new_from_array(key).to_string(), PROGRAM_ID);
}
