use anchor_lang::solana_program::instruction::Instruction as ChainInstruction;
use anchor_lang::solana_program::pubkey::Pubkey as ChainPubkey;
use lb_positions::args::{
    StrategyParameters, StrategyType, ADD_LIQUIDITY_BY_STRATEGY_DISCRIMINATOR,
    CLAIM_FEE_DISCRIMINATOR, CLOSE_POSITION_DISCRIMINATOR, INITIALIZE_POSITION_DISCRIMINATOR,
    REMOVE_ALL_LIQUIDITY_DISCRIMINATOR,
};
use lb_positions::composer::{
    cleanup_ix, compose, compute_budget_ix, CommitmentLevel, TransactionBundle,
    TransactionConfig, COMPUTE_UNIT_LIMIT,
};
use lb_positions::instruction::{AccountMeta, Instruction};
use lb_positions::lifecycle::{operation_of, Holdings, Operation, Phase, Rejection};
use lb_positions::operations::{
    add_liquidity_by_strategy, close_position, initialize_position,
    initialize_position_and_add_liquidity_by_strategy, remove_all_liquidity,
    remove_all_liquidity_and_close_position, AddLiquidityByStrategyParameter,
    InitPositionAndAddLiquidityByStrategyParameters, InitPositionParameters, PoolReads,
    RemoveAllLiquidityAndClosePositionParameters, RemoveAllLiquidityParameters,
};
use lb_positions::pda::{
    derive_bin_array_bitmap_extension, derive_bin_array_pda, derive_event_authority_pda,
    find_metadata_pda, get_associated_token_address,
};
use lb_positions::pubkey::{
    compute_budget_program, lb_clmm_program, rent_sysvar, system_program, token_program,
    wrapped_native_mint, Pubkey,
};
use lb_positions::resolver::{
    has_wrapped_native, require_pool, require_position, resolve_close_position,
    resolve_wrapped_native, AccountResolutionError, CompositionError, FetchFailure, LbPair,
    PositionV2,
};
use lb_positions::submission::{submit_to_model, SubmissionError};

fn key(tag: u8) -> Pubkey {
    let mut bytes = [tag; 32];
    bytes[1] = 0x5a;
    Pubkey::new_from_array(bytes)
}

const PAYER: u8 = 1;
const POOL: u8 = 2;
const POSITION: u8 = 3;

fn config() -> TransactionConfig {
    TransactionConfig {
        skip_preflight: true,
        preflight_commitment: Some(CommitmentLevel::Confirmed),
        max_retries: Some(3),
        min_context_slot: None,
    }
}

fn pool_state() -> LbPair {
    LbPair {
        reserve_x: key(10),
        reserve_y: key(11),
        token_x_mint: key(12),
        token_y_mint: key(13),
        active_id: 104,
    }
}

fn wrapped_pool_state() -> LbPair {
    LbPair { token_x_mint: wrapped_native_mint(), ..pool_state() }
}

fn position_state() -> PositionV2 {
    PositionV2 { lb_pair: key(POOL), owner: key(PAYER), lower_bin_id: 100, width: 10 }
}

fn reads(pool: LbPair, bitmap_extension_exists: bool, wrapped_native_exists: bool) -> PoolReads {
    PoolReads { lb_pair_state: Ok(pool), bitmap_extension_exists, wrapped_native_exists }
}

fn spot() -> StrategyParameters {
    StrategyParameters {
        min_bin_id: 100,
        max_bin_id: 109,
        strategy_type: StrategyType::SpotBalanced,
        parameters: [0u8; 64],
    }
}

fn priority_fee() -> Instruction {
    converted(solana_compute_budget_interface::ComputeBudgetInstruction::set_compute_unit_price(
        5000,
    ))
}

fn converted(ix: ChainInstruction) -> Instruction {
    Instruction {
        program_id: Pubkey::new_from_array(ix.program_id.to_bytes()),
        accounts: ix
            .accounts
            .iter()
            .map(|meta| AccountMeta {
                pubkey: Pubkey::new_from_array(meta.pubkey.to_bytes()),
                is_signer: meta.is_signer,
                is_writable: meta.is_writable,
            })
            .collect(),
        data: ix.data,
    }
}

fn chain(key: &Pubkey) -> ChainPubkey {
    ChainPubkey::new_from_array(key.to_bytes())
}

fn w(pubkey: Pubkey) -> AccountMeta {
    AccountMeta { pubkey, is_signer: false, is_writable: true }
}

fn r(pubkey: Pubkey) -> AccountMeta {
    AccountMeta { pubkey, is_signer: false, is_writable: false }
}

fn signer(pubkey: Pubkey, is_writable: bool) -> AccountMeta {
    AccountMeta { pubkey, is_signer: true, is_writable }
}

fn event_authority() -> Pubkey {
    derive_event_authority_pda().unwrap().0
}

fn wrapped_native_account() -> Pubkey {
    get_associated_token_address(&key(PAYER), &wrapped_native_mint()).unwrap().0
}

fn expected_budget() -> Instruction {
    converted(solana_compute_budget_interface::ComputeBudgetInstruction::set_compute_unit_limit(
        1_400_000,
    ))
}

fn expected_cleanup() -> Instruction {
    let payer = chain(&key(PAYER));
    converted(
        anchor_spl::token::spl_token::instruction::close_account(
            &anchor_spl::token::spl_token::ID,
            &chain(&wrapped_native_account()),
            &payer,
            &payer,
            &[&payer],
        )
        .unwrap(),
    )
}

fn shard_metas(pool: Pubkey, lower_index: i64) -> Vec<AccountMeta> {
    vec![
        w(derive_bin_array_pda(pool, lower_index).unwrap().0),
        w(derive_bin_array_pda(pool, lower_index + 1).unwrap().0),
    ]
}

fn modify_liquidity_metas(pool: LbPair, position: Pubkey, extension: bool) -> Vec<AccountMeta> {
    let mut metas = shard_metas(key(POOL), 1);
    metas.push(w(key(POOL)));
    if extension {
        metas.push(w(derive_bin_array_bitmap_extension(key(POOL)).unwrap().0));
    }
    metas.extend([
        w(position),
        w(pool.reserve_x),
        w(pool.reserve_y),
        r(pool.token_x_mint),
        r(pool.token_y_mint),
        signer(key(PAYER), false),
        w(get_associated_token_address(&key(PAYER), &pool.token_x_mint).unwrap().0),
        w(get_associated_token_address(&key(PAYER), &pool.token_y_mint).unwrap().0),
        r(token_program()),
        r(token_program()),
        r(event_authority()),
    ]);
    metas
}

fn open_metas() -> Vec<AccountMeta> {
    vec![
        r(key(POOL)),
        signer(key(PAYER), true),
        signer(key(POSITION), true),
        signer(key(PAYER), false),
        r(rent_sysvar()),
        r(system_program()),
        r(event_authority()),
    ]
}

fn deposit_data(amount_x: u64, amount_y: u64, active_id: i32, slippage: i32) -> Vec<u8> {
    let mut data = ADD_LIQUIDITY_BY_STRATEGY_DISCRIMINATOR.to_vec();
    data.extend_from_slice(&amount_x.to_le_bytes());
    data.extend_from_slice(&amount_y.to_le_bytes());
    data.extend_from_slice(&active_id.to_le_bytes());
    data.extend_from_slice(&slippage.to_le_bytes());
    data.extend_from_slice(&100i32.to_le_bytes());
    data.extend_from_slice(&109i32.to_le_bytes());
    data.push(3);
    data.extend_from_slice(&[0u8; 64]);
    data
}

fn open_data(lower_bin_id: i32, width: i32) -> Vec<u8> {
    let mut data = INITIALIZE_POSITION_DISCRIMINATOR.to_vec();
    data.extend_from_slice(&lower_bin_id.to_le_bytes());
    data.extend_from_slice(&width.to_le_bytes());
    data
}

fn liquidity_ix(accounts: Vec<AccountMeta>, data: Vec<u8>) -> Instruction {
    Instruction { program_id: lb_clmm_program(), accounts, data }
}

fn open_and_deposit_params() -> InitPositionAndAddLiquidityByStrategyParameters {
    InitPositionAndAddLiquidityByStrategyParameters {
        lb_pair: key(POOL),
        amount_x: 1000,
        amount_y: 500,
        active_id: 104,
        max_active_bin_slippage: 2,
        strategy_parameters: spot(),
        lower_bin_id: 100,
        width: 10,
        nft_mint: None,
    }
}

fn deposit_params() -> AddLiquidityByStrategyParameter {
    AddLiquidityByStrategyParameter {
        lb_pair: key(POOL),
        position: key(POSITION),
        amount_x: 1000,
        amount_y: 500,
        active_id: 104,
        max_active_bin_slippage: 2,
        strategy_parameters: spot(),
    }
}

fn unavailable(message: &str) -> FetchFailure {
    FetchFailure { message: String::from(message) }
}

#[test]
fn compute_budget_instruction_is_the_runtime_one() {
    let ix = compute_budget_ix();
    assert_eq!(ix, expected_budget());
    assert!(ix.program_id == compute_budget_program());
    assert!(ix.accounts.is_empty());
    assert_eq!(ix.data, vec![2, 0xc0, 0x5c, 0x15, 0x00]);
    assert_eq!(COMPUTE_UNIT_LIMIT, 1_400_000);
}

#[test]
fn cleanup_instruction_closes_the_wrapped_native_account() {
    let payer = key(PAYER);
    let account = wrapped_native_account();
    let ix = cleanup_ix(&payer, Some(account)).unwrap();
    assert_eq!(ix, expected_cleanup());
    assert!(ix.program_id == token_program());
    assert_eq!(ix.accounts, vec![w(account), w(payer), r(payer), signer(payer, false)]);
    assert_eq!(ix.data, vec![9]);
    assert_eq!(cleanup_ix(&payer, None), None);
}

#[test]
fn compose_orders_budget_body_priority_fee_cleanup() {
    let body = vec![
        liquidity_ix(Vec::new(), CLAIM_FEE_DISCRIMINATOR.to_vec()),
        liquidity_ix(Vec::new(), CLOSE_POSITION_DISCRIMINATOR.to_vec()),
    ];
    let bundle = compose(
        body.clone(),
        Some(priority_fee()),
        Some(expected_cleanup()),
        vec![key(POSITION)],
        config(),
    );
    assert_eq!(
        bundle.instructions,
        vec![
            expected_budget(),
            body[0].clone(),
            body[1].clone(),
            priority_fee(),
            expected_cleanup()
        ]
    );
    assert_eq!(bundle.signers, vec![key(POSITION)]);
    assert_eq!(bundle.config, config());

    let bare = compose(Vec::new(), None, None, Vec::new(), config());
    assert_eq!(bare.instructions, vec![expected_budget()]);
    assert!(bare.signers.is_empty());
}

#[test]
fn open_position_is_budget_then_open_then_priority_fee() {
    let params =
        InitPositionParameters { lb_pair: key(POOL), lower_bin_id: 100, width: 10, nft_mint: None };
    let bundle =
        initialize_position(params, key(PAYER), key(POSITION), config(), Some(priority_fee()))
            .unwrap();
    assert_eq!(
        bundle,
        TransactionBundle {
            instructions: vec![
                expected_budget(),
                liquidity_ix(open_metas(), open_data(100, 10)),
                priority_fee(),
            ],
            signers: vec![key(POSITION)],
            config: config(),
        }
    );
}

#[test]
fn open_position_with_token_appends_its_two_accounts() {
    let mint = key(40);
    let params = InitPositionParameters {
        lb_pair: key(POOL),
        lower_bin_id: -70,
        width: 70,
        nft_mint: Some(mint),
    };
    let bundle = initialize_position(params, key(PAYER), key(POSITION), config(), None).unwrap();
    let mut metas = open_metas();
    metas.push(r(get_associated_token_address(&key(PAYER), &mint).unwrap().0));
    metas.push(r(find_metadata_pda(&mint).unwrap().0));
    assert_eq!(
        bundle.instructions,
        vec![expected_budget(), liquidity_ix(metas, open_data(-70, 70))]
    );
    assert_eq!(bundle.signers, vec![key(POSITION)]);
}

#[test]
fn open_then_deposit_scenario() {
    let bundle = initialize_position_and_add_liquidity_by_strategy(
        open_and_deposit_params(),
        key(PAYER),
        key(POSITION),
        reads(pool_state(), false, false),
        config(),
        None,
    )
    .unwrap();

    let open = liquidity_ix(open_metas(), open_data(100, 10));
    let deposit = liquidity_ix(
        modify_liquidity_metas(pool_state(), key(POSITION), false),
        deposit_data(1000, 500, 104, 2),
    );
    assert_eq!(bundle.instructions, vec![expected_budget(), open, deposit]);
    assert_eq!(bundle.signers, vec![key(POSITION)]);
    assert_eq!(bundle.config, config());

    let operations: Vec<Option<Operation>> =
        bundle.instructions.iter().map(operation_of).collect();
    assert_eq!(
        operations,
        vec![None, Some(Operation::InitializePosition), Some(Operation::AddLiquidity)]
    );
    assert_eq!(submit_to_model(None, &bundle), Ok(Some(Phase::Liquid(Holdings::Liquidity))));
}

#[test]
fn open_and_deposit_apart_take_the_position_from_open_to_liquid() {
    let open = initialize_position(
        InitPositionParameters { lb_pair: key(POOL), lower_bin_id: 100, width: 10, nft_mint: None },
        key(PAYER),
        key(POSITION),
        config(),
        None,
    )
    .unwrap();
    let opened = submit_to_model(None, &open).unwrap();
    assert_eq!(opened, Some(Phase::Open));

    let deposit = add_liquidity_by_strategy(
        deposit_params(),
        key(PAYER),
        reads(pool_state(), false, false),
        Ok(position_state()),
        config(),
        None,
    )
    .unwrap();
    assert_eq!(
        deposit.instructions,
        vec![
            expected_budget(),
            liquidity_ix(
                modify_liquidity_metas(pool_state(), key(POSITION), false),
                deposit_data(1000, 500, 104, 2)
            ),
        ]
    );
    assert!(deposit.signers.is_empty());
    assert_eq!(submit_to_model(opened, &deposit), Ok(Some(Phase::Liquid(Holdings::Liquidity))));
    assert_eq!(
        submit_to_model(opened, &open),
        Err(SubmissionError::Rejected(Rejection::PositionExists))
    );
}

#[test]
fn deposit_passes_the_drift_tolerance_through() {
    for slippage in [0, 2, 15, -1, i32::MAX] {
        let mut params = deposit_params();
        params.max_active_bin_slippage = slippage;
        let bundle = add_liquidity_by_strategy(
            params,
            key(PAYER),
            reads(pool_state(), true, false),
            Ok(position_state()),
            config(),
            Some(priority_fee()),
        )
        .unwrap();
        assert_eq!(bundle.instructions.len(), 3);
        assert_eq!(bundle.instructions[1].data, deposit_data(1000, 500, 104, slippage));
        assert_eq!(
            bundle.instructions[1].accounts,
            modify_liquidity_metas(pool_state(), key(POSITION), true)
        );
        assert_eq!(bundle.instructions[2], priority_fee());
    }
}

#[test]
fn withdraw_all_then_close_scenario() {
    let bundle = remove_all_liquidity_and_close_position(
        RemoveAllLiquidityAndClosePositionParameters {
            lb_pair: key(POOL),
            position: key(POSITION),
        },
        key(PAYER),
        reads(wrapped_pool_state(), false, true),
        Ok(position_state()),
        config(),
        None,
    )
    .unwrap();

    let modify = modify_liquidity_metas(wrapped_pool_state(), key(POSITION), false);
    let mut shards_pool_position = shard_metas(key(POOL), 1);
    shards_pool_position.push(w(key(POOL)));
    shards_pool_position.push(w(key(POSITION)));
    let pool = wrapped_pool_state();
    let mut claim = shards_pool_position.clone();
    claim.extend([
        signer(key(PAYER), false),
        w(pool.reserve_x),
        w(pool.reserve_y),
        r(pool.token_x_mint),
        r(pool.token_y_mint),
        r(token_program()),
        w(wrapped_native_account()),
        w(get_associated_token_address(&key(PAYER), &pool.token_y_mint).unwrap().0),
        r(event_authority()),
    ]);
    let mut close = shards_pool_position;
    close.extend([signer(key(PAYER), false), w(key(PAYER)), r(event_authority())]);

    assert_eq!(bundle.instructions.len(), 5);
    assert_eq!(bundle.instructions[0], expected_budget());
    assert_eq!(
        bundle.instructions[1..].to_vec(),
        vec![
            liquidity_ix(modify, REMOVE_ALL_LIQUIDITY_DISCRIMINATOR.to_vec()),
            liquidity_ix(claim, CLAIM_FEE_DISCRIMINATOR.to_vec()),
            liquidity_ix(close, CLOSE_POSITION_DISCRIMINATOR.to_vec()),
            expected_cleanup(),
        ]
    );
    assert!(bundle.signers.is_empty());
    for holdings in [Holdings::Liquidity, Holdings::Fees, Holdings::Both] {
        assert_eq!(
            submit_to_model(Some(Phase::Liquid(holdings)), &bundle),
            Ok(Some(Phase::Closed))
        );
    }
}

#[test]
fn cleanup_appears_exactly_when_due() {
    let cases = [
        (pool_state(), false, false),
        (pool_state(), true, false),
        (wrapped_pool_state(), false, false),
        (wrapped_pool_state(), true, true),
        (LbPair { token_y_mint: wrapped_native_mint(), ..pool_state() }, true, true),
    ];
    for (pool, exists, due) in cases {
        let withdrawal = remove_all_liquidity(
            RemoveAllLiquidityParameters { lb_pair: key(POOL), position: key(POSITION) },
            key(PAYER),
            reads(pool, false, exists),
            Ok(position_state()),
            config(),
        )
        .unwrap();
        let deposit = add_liquidity_by_strategy(
            deposit_params(),
            key(PAYER),
            reads(pool, false, exists),
            Ok(position_state()),
            config(),
            Some(priority_fee()),
        )
        .unwrap();
        let both = initialize_position_and_add_liquidity_by_strategy(
            open_and_deposit_params(),
            key(PAYER),
            key(POSITION),
            reads(pool, false, exists),
            config(),
            Some(priority_fee()),
        )
        .unwrap();
        let closing = remove_all_liquidity_and_close_position(
            RemoveAllLiquidityAndClosePositionParameters {
                lb_pair: key(POOL),
                position: key(POSITION),
            },
            key(PAYER),
            reads(pool, false, exists),
            Ok(position_state()),
            config(),
            Some(priority_fee()),
        )
        .unwrap();
        for (bundle, leading) in [(withdrawal, 2), (deposit, 3), (both, 4), (closing, 5)] {
            let cleanups =
                bundle.instructions.iter().filter(|ix| **ix == expected_cleanup()).count();
            if due {
                assert_eq!(bundle.instructions.len(), leading + 1);
                assert_eq!(bundle.instructions[leading], expected_cleanup());
                assert_eq!(cleanups, 1);
            } else {
                assert_eq!(bundle.instructions.len(), leading);
                assert_eq!(cleanups, 0);
            }
        }
        assert_eq!(has_wrapped_native(&pool), pool.token_x_mint.is_wrapped_native_mint()
            || pool.token_y_mint.is_wrapped_native_mint());
        assert_eq!(
            resolve_wrapped_native(&key(PAYER), &pool, exists),
            Ok(if due { Some(wrapped_native_account()) } else { None })
        );
    }
}

#[test]
fn bitmap_extension_is_named_exactly_when_it_exists() {
    let extension = derive_bin_array_bitmap_extension(key(POOL)).unwrap().0;
    for exists in [false, true] {
        let bundle = remove_all_liquidity(
            RemoveAllLiquidityParameters { lb_pair: key(POOL), position: key(POSITION) },
            key(PAYER),
            reads(pool_state(), exists, false),
            Ok(position_state()),
            config(),
        )
        .unwrap();
        assert_eq!(bundle.instructions.len(), 2);
        let accounts = &bundle.instructions[1].accounts;
        assert_eq!(*accounts, modify_liquidity_metas(pool_state(), key(POSITION), exists));
        let named = accounts.iter().filter(|meta| meta.pubkey == extension).count();
        assert_eq!(named, if exists { 1 } else { 0 });
        assert_eq!(accounts.len(), if exists { 15 } else { 14 });
        assert_eq!(bundle.instructions[1].data, REMOVE_ALL_LIQUIDITY_DISCRIMINATOR.to_vec());
    }
}

#[test]
fn composition_is_repeatable() {
    let compose_once = || {
        remove_all_liquidity_and_close_position(
            RemoveAllLiquidityAndClosePositionParameters {
                lb_pair: key(POOL),
                position: key(POSITION),
            },
            key(PAYER),
            reads(wrapped_pool_state(), true, true),
            Ok(position_state()),
            config(),
            Some(priority_fee()),
        )
    };
    assert_eq!(compose_once(), compose_once());
}

#[test]
fn close_position_is_sent_by_the_owner() {
    let state =
        PositionV2 { lb_pair: key(POOL), owner: key(50), lower_bin_id: -1, width: 70 };
    let bundle = close_position(key(POSITION), Ok(state), config(), Some(priority_fee())).unwrap();
    let mut metas = shard_metas(key(POOL), -1);
    metas.extend([
        w(key(POOL)),
        w(key(POSITION)),
        signer(key(50), false),
        w(key(50)),
        r(event_authority()),
    ]);
    assert_eq!(
        bundle.instructions,
        vec![
            expected_budget(),
            liquidity_ix(metas, CLOSE_POSITION_DISCRIMINATOR.to_vec()),
            priority_fee(),
        ]
    );
    assert!(bundle.signers.is_empty());
    assert_eq!(
        submit_to_model(Some(Phase::Liquid(Holdings::Fees)), &bundle),
        Err(SubmissionError::Rejected(Rejection::PositionNotEmpty))
    );
    assert_eq!(submit_to_model(Some(Phase::Empty), &bundle), Ok(Some(Phase::Closed)));

    let elsewhere = resolve_close_position(key(POSITION), &state, Some(key(51))).unwrap();
    assert!(elsewhere.rent_receiver == key(51));
    assert!(elsewhere.sender == key(50));
}

#[test]
fn unread_pool_state_is_an_error_with_its_cause() {
    let failed = || PoolReads {
        lb_pair_state: Err(unavailable("timed out")),
        bitmap_extension_exists: true,
        wrapped_native_exists: true,
    };
    let expected = Err(CompositionError::Resolution(AccountResolutionError::PoolUnavailable(
        unavailable("timed out"),
    )));
    assert_eq!(
        add_liquidity_by_strategy(
            deposit_params(),
            key(PAYER),
            failed(),
            Ok(position_state()),
            config(),
            None
        ),
        expected
    );
    assert_eq!(
        remove_all_liquidity(
            RemoveAllLiquidityParameters { lb_pair: key(POOL), position: key(POSITION) },
            key(PAYER),
            failed(),
            Err(unavailable("also missing")),
            config(),
        ),
        expected
    );
    assert_eq!(
        initialize_position_and_add_liquidity_by_strategy(
            open_and_deposit_params(),
            key(PAYER),
            key(POSITION),
            failed(),
            config(),
            None
        ),
        expected
    );
    assert_eq!(
        require_pool(Err(unavailable("timed out"))),
        Err(CompositionError::Resolution(AccountResolutionError::PoolUnavailable(unavailable(
            "timed out"
        ))))
    );
    assert_eq!(require_pool(Ok(pool_state())), Ok(pool_state()));
}

#[test]
fn unread_position_state_is_an_error_with_its_cause() {
    let expected = Err(CompositionError::Resolution(
        AccountResolutionError::PositionUnavailable(unavailable("no such account")),
    ));
    assert_eq!(
        remove_all_liquidity_and_close_position(
            RemoveAllLiquidityAndClosePositionParameters {
                lb_pair: key(POOL),
                position: key(POSITION),
            },
            key(PAYER),
            reads(pool_state(), false, false),
            Err(unavailable("no such account")),
            config(),
            None,
        ),
        expected
    );
    assert_eq!(
        close_position(key(POSITION), Err(unavailable("no such account")), config(), None),
        expected
    );
}

#[test]
fn a_position_of_another_pool_is_refused() {
    let foreign = PositionV2 { lb_pair: key(99), ..position_state() };
    let expected =
        Err(CompositionError::Resolution(AccountResolutionError::PositionPoolMismatch));
    assert_eq!(
        add_liquidity_by_strategy(
            deposit_params(),
            key(PAYER),
            reads(pool_state(), false, false),
            Ok(foreign),
            config(),
            None
        ),
        expected
    );
    assert_eq!(
        remove_all_liquidity(
            RemoveAllLiquidityParameters { lb_pair: key(POOL), position: key(POSITION) },
            key(PAYER),
            reads(pool_state(), false, false),
            Ok(foreign),
            config(),
        ),
        expected
    );
    assert_eq!(
        require_position(&key(POOL), Ok(foreign)),
        Err(CompositionError::Resolution(AccountResolutionError::PositionPoolMismatch))
    );
    assert_eq!(require_position(&key(POOL), Ok(position_state())), Ok(position_state()));
}
