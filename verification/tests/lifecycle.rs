use lb_positions::composer::{compose, TransactionConfig};
use lb_positions::instruction::Instruction;
use lb_positions::lifecycle::{
    accrue_fees, execute, operation_of, step, Holdings, Operation, Phase, Rejection,
};
use lb_positions::pubkey::{lb_clmm_program, token_program, Pubkey};
use lb_positions::submission::{conclude, submit_to_model, Signature, SubmissionError};
use lb_positions::args::{
    add_liquidity_by_strategy_data, claim_fee_data, close_position_data,
    initialize_position_data, remove_all_liquidity_data, LiquidityParameterByStrategy,
    StrategyParameters, StrategyType,
};

const OPERATIONS: [Operation; 5] = [
    Operation::InitializePosition,
    Operation::AddLiquidity,
    Operation::RemoveAllLiquidity,
    Operation::ClaimFee,
    Operation::ClosePosition,
];

fn config() -> TransactionConfig {
    TransactionConfig {
        skip_preflight: false,
        preflight_commitment: None,
        max_retries: None,
        min_context_slot: None,
    }
}

fn liquidity_ix(data: Vec<u8>) -> Instruction {
    Instruction { program_id: lb_clmm_program(), accounts: Vec::new(), data }
}

fn deposit_data() -> Vec<u8> {
    add_liquidity_by_strategy_data(&LiquidityParameterByStrategy {
        amount_x: 1,
        amount_y: 1,
        active_id: 0,
        max_active_bin_slippage: 0,
        strategy_parameters: StrategyParameters {
            min_bin_id: 0,
            max_bin_id: 0,
            strategy_type: StrategyType::SpotBalanced,
            parameters: [0u8; 64],
        },
    })
}

#[test]
fn a_position_is_opened_once() {
    assert_eq!(step(None, Operation::InitializePosition), Ok(Some(Phase::Open)));
    for phase in [Phase::Open, Phase::Liquid(Holdings::Both), Phase::Empty] {
        assert_eq!(
            step(Some(phase), Operation::InitializePosition),
            Err(Rejection::PositionExists)
        );
    }
}

#[test]
fn nothing_is_done_to_a_position_that_was_never_opened() {
    for operation in OPERATIONS {
        if operation != Operation::InitializePosition {
            assert_eq!(step(None, operation), Err(Rejection::PositionMissing));
        }
    }
}

#[test]
fn closed_is_terminal() {
    for operation in OPERATIONS {
        assert_eq!(step(Some(Phase::Closed), operation), Err(Rejection::PositionClosed));
    }
    assert_eq!(accrue_fees(Some(Phase::Closed)), Some(Phase::Closed));
}

#[test]
fn a_deposit_makes_a_position_liquid() {
    let liquid = Some(Phase::Liquid(Holdings::Liquidity));
    assert_eq!(step(Some(Phase::Open), Operation::AddLiquidity), Ok(liquid));
    assert_eq!(step(Some(Phase::Empty), Operation::AddLiquidity), Ok(liquid));
    assert_eq!(step(liquid, Operation::AddLiquidity), Ok(liquid));
    let both = Some(Phase::Liquid(Holdings::Both));
    assert_eq!(step(Some(Phase::Liquid(Holdings::Fees)), Operation::AddLiquidity), Ok(both));
    assert_eq!(step(both, Operation::AddLiquidity), Ok(both));
}

#[test]
fn a_position_is_empty_when_liquidity_and_fees_are_gone() {
    let liquidity = Some(Phase::Liquid(Holdings::Liquidity));
    let fees = Some(Phase::Liquid(Holdings::Fees));
    let both = Some(Phase::Liquid(Holdings::Both));
    let empty = Some(Phase::Empty);
    assert_eq!(step(liquidity, Operation::RemoveAllLiquidity), Ok(empty));
    assert_eq!(step(both, Operation::RemoveAllLiquidity), Ok(fees));
    assert_eq!(step(fees, Operation::RemoveAllLiquidity), Ok(fees));
    assert_eq!(step(fees, Operation::ClaimFee), Ok(empty));
    assert_eq!(step(both, Operation::ClaimFee), Ok(liquidity));
    assert_eq!(step(liquidity, Operation::ClaimFee), Ok(liquidity));
    assert_eq!(step(empty, Operation::RemoveAllLiquidity), Ok(empty));
    assert_eq!(step(empty, Operation::ClaimFee), Ok(empty));
    assert_eq!(step(Some(Phase::Open), Operation::RemoveAllLiquidity), Ok(Some(Phase::Open)));
    assert_eq!(step(Some(Phase::Open), Operation::ClaimFee), Ok(Some(Phase::Open)));
}

#[test]
fn fees_accrue_to_positions_with_liquidity() {
    assert_eq!(
        accrue_fees(Some(Phase::Liquid(Holdings::Liquidity))),
        Some(Phase::Liquid(Holdings::Both))
    );
    for position in [
        None,
        Some(Phase::Open),
        Some(Phase::Empty),
        Some(Phase::Liquid(Holdings::Fees)),
        Some(Phase::Liquid(Holdings::Both)),
    ] {
        assert_eq!(accrue_fees(position), position);
    }
}

#[test]
fn close_needs_an_empty_position() {
    for holdings in [Holdings::Liquidity, Holdings::Fees, Holdings::Both] {
        assert_eq!(
            step(Some(Phase::Liquid(holdings)), Operation::ClosePosition),
            Err(Rejection::PositionNotEmpty)
        );
    }
    assert_eq!(step(Some(Phase::Open), Operation::ClosePosition), Ok(Some(Phase::Closed)));
    assert_eq!(step(Some(Phase::Empty), Operation::ClosePosition), Ok(Some(Phase::Closed)));
}

#[test]
fn instructions_are_told_apart_by_program_and_discriminator() {
    assert_eq!(
        operation_of(&liquidity_ix(initialize_position_data(1, 2))),
        Some(Operation::InitializePosition)
    );
    assert_eq!(operation_of(&liquidity_ix(deposit_data())), Some(Operation::AddLiquidity));
    assert_eq!(
        operation_of(&liquidity_ix(remove_all_liquidity_data())),
        Some(Operation::RemoveAllLiquidity)
    );
    assert_eq!(operation_of(&liquidity_ix(claim_fee_data())), Some(Operation::ClaimFee));
    assert_eq!(operation_of(&liquidity_ix(close_position_data())), Some(Operation::ClosePosition));
    assert_eq!(operation_of(&liquidity_ix(vec![1, 2, 3])), None);
    assert_eq!(operation_of(&liquidity_ix(vec![0; 8])), None);
    let mut short = close_position_data();
    short.pop();
    assert_eq!(operation_of(&liquidity_ix(short)), None);
    let elsewhere = Instruction {
        program_id: token_program(),
        accounts: Vec::new(),
        data: close_position_data(),
    };
    assert_eq!(operation_of(&elsewhere), None);
}

#[test]
fn a_transaction_is_executed_whole_or_not_at_all() {
    let withdraw_claim_close = vec![
        liquidity_ix(remove_all_liquidity_data()),
        liquidity_ix(claim_fee_data()),
        liquidity_ix(close_position_data()),
    ];
    for holdings in [Holdings::Liquidity, Holdings::Fees, Holdings::Both] {
        assert_eq!(
            execute(Some(Phase::Liquid(holdings)), &withdraw_claim_close),
            Ok(Some(Phase::Closed))
        );
    }
    let close_too_early = vec![
        liquidity_ix(remove_all_liquidity_data()),
        liquidity_ix(close_position_data()),
        liquidity_ix(claim_fee_data()),
    ];
    assert_eq!(
        execute(Some(Phase::Liquid(Holdings::Both)), &close_too_early),
        Err(Rejection::PositionNotEmpty)
    );
    assert_eq!(execute(Some(Phase::Empty), &Vec::new()), Ok(Some(Phase::Empty)));
    let deposit_before_open =
        vec![liquidity_ix(deposit_data()), liquidity_ix(initialize_position_data(0, 1))];
    assert_eq!(execute(None, &deposit_before_open), Err(Rejection::PositionMissing));
}

#[test]
fn rejected_close_propagates_unmodified() {
    let bundle =
        compose(vec![liquidity_ix(close_position_data())], None, None, Vec::new(), config());
    let before = Some(Phase::Liquid(Holdings::Both));
    let outcome = submit_to_model(before, &bundle);
    assert_eq!(outcome, Err(SubmissionError::Rejected(Rejection::PositionNotEmpty)));

    let submitted: Result<Signature, SubmissionError> = match outcome {
        Ok(_) => Ok(Signature { bytes: [0u8; 64] }),
        Err(error) => Err(error),
    };
    assert_eq!(
        conclude((), submitted),
        Err(SubmissionError::Rejected(Rejection::PositionNotEmpty))
    );
}

#[test]
fn conclude_hands_back_the_value_or_the_error() {
    let position = Pubkey::new_from_array([3u8; 32]);
    let signature = Signature { bytes: [9u8; 64] };
    assert_eq!(conclude(position, Ok(signature)), Ok(position));
    assert_eq!(conclude((), Ok(signature)), Ok(()));
    let lost = SubmissionError::Undelivered(String::from("connection reset"));
    assert_eq!(conclude(position, Err(lost.clone())), Err(lost));
    for rejection in [
        Rejection::PositionExists,
        Rejection::PositionMissing,
        Rejection::PositionClosed,
        Rejection::PositionNotEmpty,
    ] {
        assert_eq!(
            conclude(7u8, Err(SubmissionError::Rejected(rejection))),
            Err(SubmissionError::Rejected(rejection))
        );
    }
}
