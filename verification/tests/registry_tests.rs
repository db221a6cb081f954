use curve_amm::curve::CurveStatus;
use curve_amm::errors::CurveError;
use curve_amm::registry::{DeployParams, Registry};

const AUTHORITY: u64 = 1;
const AGENT: u64 = 2;
const CREATOR: u64 = 3;

fn le_blob(fields: &[u64]) -> Vec<u8> {
    let mut out = Vec::new();
    for f in fields {
        out.extend_from_slice(&f.to_le_bytes());
    }
    out
}

fn params() -> DeployParams {
    DeployParams {
        agent: AGENT,
        creator: CREATOR,
        handle: b"creator-one".to_vec(),
        total_supply: 1_000_000_000,
        self_percent: 20,
        market_percent: 50,
        supporter_percent: 30,
        name: b"Creator One".to_vec(),
        symbol: b"ONE".to_vec(),
        metadata_uri: b"https://example.invalid/one.json".to_vec(),
    }
}

fn curve_blob() -> Vec<u8> {
    // reserve_ratio = 3, initial_price = 1
    le_blob(&[3, 1])
}

fn vault_blob() -> Vec<u8> {
    // start_time = 1_700_000_000, vesting_duration = 86_400
    le_blob(&[1_700_000_000, 86_400])
}

fn distributor_blob() -> Vec<u8> {
    // daily_drip_amount = 1_000_000, drip_interval = 86_400, total_days = 300
    le_blob(&[1_000_000, 86_400, 300])
}

fn ready_registry() -> Registry {
    let mut reg = Registry::new(AUTHORITY);
    reg.set_agent(AUTHORITY, AGENT, true).unwrap();
    reg
}

#[test]
fn set_agent_requires_the_authority() {
    let mut reg = Registry::new(AUTHORITY);
    assert_eq!(reg.set_agent(42, AGENT, true), Err(CurveError::Unauthorized));
    assert_eq!(reg.agents.len(), 0);
}

#[test]
fn set_agent_creates_and_updates_one_record() {
    let mut reg = Registry::new(AUTHORITY);
    reg.set_agent(AUTHORITY, AGENT, true).unwrap();
    assert_eq!(reg.agents.len(), 1);
    assert!(reg.agents[0].allowed);
    reg.set_agent(AUTHORITY, AGENT, false).unwrap();
    assert_eq!(reg.agents.len(), 1);
    assert!(!reg.agents[0].allowed);
}

#[test]
fn deploy_splits_the_allocations_exactly() {
    let mut reg = ready_registry();
    let bundle = reg
        .deploy_creator_token(params(), &curve_blob(), &vault_blob(), &distributor_blob())
        .unwrap();
    // 1_000_000_000 split 20 / 50 / 30.
    assert_eq!(bundle.vault.initial_balance, 200_000_000);
    assert_eq!(bundle.pool.allocation, 300_000_000);
    assert_eq!(bundle.token.total_supply, 1_000_000_000);
    assert_eq!(bundle.token.market_percent, 50);
    assert_eq!(bundle.token.token_id, 0);
    assert_eq!(bundle.curve.token_id, 0);
    assert_eq!(bundle.curve.status, CurveStatus::Active);
    assert_eq!(bundle.curve.buy_fee_bps, 50);
    assert_eq!(bundle.curve.sell_fee_bps, 50);
    assert_eq!(bundle.curve.purchase_market_supply, 0);
    assert_eq!(bundle.curve.initial_price, 1);
    assert_eq!(bundle.curve.reserve_ratio, 3);
    assert_eq!(bundle.vault.owner, CREATOR);
    assert_eq!(bundle.vault.withdrawn, 0);
    assert_eq!(bundle.vault.start_time, 1_700_000_000);
    assert_eq!(bundle.pool.daily_drip_amount, 1_000_000);
    assert_eq!(bundle.pool.total_days, 300);
    assert_eq!(bundle.pool.total_distributed, 0);
    assert_eq!(bundle.metadata.name, b"Creator One".to_vec());
    assert!(bundle.token.initialized);
    assert!(!bundle.token.initial_minted);
    assert_eq!(reg.next_token_id, 1);
    assert_eq!(reg.handles.len(), 1);
}

#[test]
fn mint_initial_tokens_mints_both_allocations_once() {
    let mut reg = ready_registry();
    let mut bundle = reg
        .deploy_creator_token(params(), &curve_blob(), &vault_blob(), &distributor_blob())
        .unwrap();
    let receipt = bundle.token.mint_initial_tokens().unwrap();
    assert_eq!(receipt.vault_amount, 200_000_000);
    assert_eq!(receipt.pool_amount, 300_000_000);
    assert!(bundle.token.initial_minted);
    assert_eq!(
        bundle.token.mint_initial_tokens(),
        Err(CurveError::AlreadyMinted)
    );
}

#[test]
fn minting_an_uninitialized_token_fails() {
    let mut reg = ready_registry();
    let mut bundle = reg
        .deploy_creator_token(params(), &curve_blob(), &vault_blob(), &distributor_blob())
        .unwrap();
    bundle.token.initialized = false;
    assert_eq!(
        bundle.token.mint_initial_tokens(),
        Err(CurveError::TokenNotInitialized)
    );
    assert!(!bundle.token.initial_minted);
}

#[test]
fn bad_percentage_split_fails_and_creates_nothing() {
    let mut reg = ready_registry();
    let mut bad = params();
    bad.supporter_percent = 31;
    assert_eq!(
        reg.deploy_creator_token(bad, &curve_blob(), &vault_blob(), &distributor_blob()),
        Err(CurveError::InvalidAllocation)
    );
    assert_eq!(reg.next_token_id, 0);
    assert_eq!(reg.handles.len(), 0);
}

#[test]
fn oversized_name_symbol_and_uri_each_fail_distinctly() {
    let mut reg = ready_registry();
    let mut long_name = params();
    long_name.name = vec![b'a'; 33];
    assert_eq!(
        reg.deploy_creator_token(long_name, &curve_blob(), &vault_blob(), &distributor_blob()),
        Err(CurveError::NameTooLong)
    );
    let mut long_symbol = params();
    long_symbol.symbol = vec![b'a'; 11];
    assert_eq!(
        reg.deploy_creator_token(long_symbol, &curve_blob(), &vault_blob(), &distributor_blob()),
        Err(CurveError::SymbolTooLong)
    );
    let mut long_uri = params();
    long_uri.metadata_uri = vec![b'a'; 201];
    assert_eq!(
        reg.deploy_creator_token(long_uri, &curve_blob(), &vault_blob(), &distributor_blob()),
        Err(CurveError::UriTooLong)
    );
    assert_eq!(reg.next_token_id, 0);
}

#[test]
fn duplicate_handle_fails_the_second_deployment() {
    let mut reg = ready_registry();
    reg.deploy_creator_token(params(), &curve_blob(), &vault_blob(), &distributor_blob())
        .unwrap();
    assert_eq!(
        reg.deploy_creator_token(params(), &curve_blob(), &vault_blob(), &distributor_blob()),
        Err(CurveError::DuplicateHandle)
    );
    assert_eq!(reg.next_token_id, 1);
}

#[test]
fn unregistered_and_disallowed_agents_fail_distinctly() {
    let mut reg = Registry::new(AUTHORITY);
    assert_eq!(
        reg.deploy_creator_token(params(), &curve_blob(), &vault_blob(), &distributor_blob()),
        Err(CurveError::AgentNotRegistered)
    );
    reg.set_agent(AUTHORITY, AGENT, false).unwrap();
    assert_eq!(
        reg.deploy_creator_token(params(), &curve_blob(), &vault_blob(), &distributor_blob()),
        Err(CurveError::AgentNotAllowed)
    );
}

#[test]
fn malformed_config_blobs_fail_with_invalid_config() {
    let mut reg = ready_registry();
    assert_eq!(
        reg.deploy_creator_token(params(), &le_blob(&[3]), &vault_blob(), &distributor_blob()),
        Err(CurveError::InvalidConfig)
    );
    assert_eq!(
        reg.deploy_creator_token(params(), &curve_blob(), &le_blob(&[1, 2, 3]), &distributor_blob()),
        Err(CurveError::InvalidConfig)
    );
    assert_eq!(
        reg.deploy_creator_token(params(), &curve_blob(), &vault_blob(), &le_blob(&[1])),
        Err(CurveError::InvalidConfig)
    );
}

#[test]
fn zero_distributor_fields_fail() {
    let mut reg = ready_registry();
    assert_eq!(
        reg.deploy_creator_token(
            params(),
            &curve_blob(),
            &vault_blob(),
            &le_blob(&[0, 86_400, 300])
        ),
        Err(CurveError::InvalidDistributorConfig)
    );
}

#[test]
fn overlarge_distribution_fails() {
    // 1_000_001 scaled units over 300 days exceeds the 300_000_000 supporter
    // allocation.
    let mut reg = ready_registry();
    assert_eq!(
        reg.deploy_creator_token(
            params(),
            &curve_blob(),
            &vault_blob(),
            &le_blob(&[1_000_001, 86_400, 300])
        ),
        Err(CurveError::DistributionExceedsAllocation)
    );
}

#[test]
fn token_ids_increase_monotonically() {
    let mut reg = ready_registry();
    let first = reg
        .deploy_creator_token(params(), &curve_blob(), &vault_blob(), &distributor_blob())
        .unwrap();
    let mut second_params = params();
    second_params.handle = b"creator-two".to_vec();
    let second = reg
        .deploy_creator_token(second_params, &curve_blob(), &vault_blob(), &distributor_blob())
        .unwrap();
    assert_eq!(first.token.token_id, 0);
    assert_eq!(second.token.token_id, 1);
    assert_eq!(reg.next_token_id, 2);
}
