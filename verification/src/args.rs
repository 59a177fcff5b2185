//! Argument encodings of the liquidity program's instructions: eight bytes that name the
//! instruction, then the arguments field by field, integers little-endian.

use crate::codec::{
    le_bytes, lemma_le_bytes_len, lemma_le_value_of_bytes, lemma_pow256_values, push_i32,
    push_u64, twos_complement,
};
use crate::pubkey::array_to_vec;
use vstd::prelude::*;

verus! {

/// Names the instruction that opens a position.
pub const INITIALIZE_POSITION_DISCRIMINATOR: [u8; 8] = [219, 192, 234, 71, 190, 191, 102, 80];

/// Names the instruction that deposits by strategy.
pub const ADD_LIQUIDITY_BY_STRATEGY_DISCRIMINATOR: [u8; 8] = [7, 3, 150, 127, 148, 40, 61, 200];

/// Names the instruction that withdraws all liquidity.
pub const REMOVE_ALL_LIQUIDITY_DISCRIMINATOR: [u8; 8] = [10, 51, 61, 35, 112, 105, 24, 85];

/// Names the instruction that claims fees.
pub const CLAIM_FEE_DISCRIMINATOR: [u8; 8] = [169, 32, 79, 137, 136, 232, 70, 137];

/// Names the instruction that closes a position.
pub const CLOSE_POSITION_DISCRIMINATOR: [u8; 8] = [123, 134, 81, 0, 49, 68, 98, 98];

/// The shape in which a deposit is spread over the bins of a position.
#[derive(Clone, Copy, Debug, PartialEq, Eq, Structural)]
pub enum StrategyType {
    SpotOneSide,
    CurveOneSide,
    BidAskOneSide,
    SpotBalanced,
    CurveBalanced,
    BidAskBalanced,
    SpotImBalanced,
    CurveImBalanced,
    BidAskImBalanced,
}

impl StrategyType {
    /// The byte that stands for the shape in an encoding: its place in the declaration.
    pub open spec fn spec_tag(self) -> u8 {
        match self {
            StrategyType::SpotOneSide => 0,
            StrategyType::CurveOneSide => 1,
            StrategyType::BidAskOneSide => 2,
            StrategyType::SpotBalanced => 3,
            StrategyType::CurveBalanced => 4,
            StrategyType::BidAskBalanced => 5,
            StrategyType::SpotImBalanced => 6,
            StrategyType::CurveImBalanced => 7,
            StrategyType::BidAskImBalanced => 8,
        }
    }

    pub fn tag(&self) -> (tag: u8)
        ensures
            tag == self.spec_tag(),
    {
        match self {
            StrategyType::SpotOneSide => 0,
            StrategyType::CurveOneSide => 1,
            StrategyType::BidAskOneSide => 2,
            StrategyType::SpotBalanced => 3,
            StrategyType::CurveBalanced => 4,
            StrategyType::BidAskBalanced => 5,
            StrategyType::SpotImBalanced => 6,
            StrategyType::CurveImBalanced => 7,
            StrategyType::BidAskImBalanced => 8,
        }
    }
}

/// How a deposit is to be spread: the bins it covers, the shape, and shape-specific bytes
/// that only the liquidity program reads.
#[derive(Clone, Copy, Debug)]
pub struct StrategyParameters {
    pub min_bin_id: i32,
    pub max_bin_id: i32,
    pub strategy_type: StrategyType,
    pub parameters: [u8; 64],
}

/// What a deposit by strategy carries.
#[derive(Clone, Copy, Debug)]
pub struct LiquidityParameterByStrategy {
    /// Amount of token X to deposit.
    pub amount_x: u64,
    /// Amount of token Y to deposit.
    pub amount_y: u64,
    /// The active bin that the depositor saw.
    pub active_id: i32,
    /// How far the pool's active bin may have moved from `active_id` for the deposit still to
    /// be executed.
    pub max_active_bin_slippage: i32,
    pub strategy_parameters: StrategyParameters,
}

/// Four bytes of a signed number.
pub open spec fn le_i32(value: i32) -> Seq<u8> {
    le_bytes(twos_complement(value as int, 4), 4)
}

/// Eight bytes of an unsigned number.
pub open spec fn le_u64(value: u64) -> Seq<u8> {
    le_bytes(value as nat, 8)
}

pub open spec fn spec_strategy_parameters_bytes(strategy: StrategyParameters) -> Seq<u8> {
    le_i32(strategy.min_bin_id) + le_i32(strategy.max_bin_id) + seq![
        strategy.strategy_type.spec_tag(),
    ] + strategy.parameters@
}

pub open spec fn spec_liquidity_parameter_bytes(liquidity: LiquidityParameterByStrategy) -> Seq<
    u8,
> {
    le_u64(liquidity.amount_x) + le_u64(liquidity.amount_y) + le_i32(liquidity.active_id)
        + le_i32(liquidity.max_active_bin_slippage) + spec_strategy_parameters_bytes(
        liquidity.strategy_parameters,
    )
}

pub open spec fn spec_initialize_position_data(lower_bin_id: i32, width: i32) -> Seq<u8> {
    INITIALIZE_POSITION_DISCRIMINATOR@ + le_i32(lower_bin_id) + le_i32(width)
}

pub open spec fn spec_add_liquidity_by_strategy_data(
    liquidity: LiquidityParameterByStrategy,
) -> Seq<u8> {
    ADD_LIQUIDITY_BY_STRATEGY_DISCRIMINATOR@ + spec_liquidity_parameter_bytes(liquidity)
}

/// The arguments of the instruction that opens a position: its lowest bin and its width.
pub fn initialize_position_data(lower_bin_id: i32, width: i32) -> (data: Vec<u8>)
    ensures
        data@ == spec_initialize_position_data(lower_bin_id, width),
{
    let mut data = array_to_vec(&INITIALIZE_POSITION_DISCRIMINATOR);
    push_i32(&mut data, lower_bin_id);
    push_i32(&mut data, width);
    data
}

/// The arguments of a deposit by strategy.
pub fn add_liquidity_by_strategy_data(liquidity: &LiquidityParameterByStrategy) -> (data: Vec<
    u8,
>)
    ensures
        data@ == spec_add_liquidity_by_strategy_data(*liquidity),
{
    let mut data = array_to_vec(&ADD_LIQUIDITY_BY_STRATEGY_DISCRIMINATOR);
    push_u64(&mut data, liquidity.amount_x);
    push_u64(&mut data, liquidity.amount_y);
    push_i32(&mut data, liquidity.active_id);
    push_i32(&mut data, liquidity.max_active_bin_slippage);
    push_i32(&mut data, liquidity.strategy_parameters.min_bin_id);
    push_i32(&mut data, liquidity.strategy_parameters.max_bin_id);
    data.push(liquidity.strategy_parameters.strategy_type.tag());
    let mut shape = array_to_vec(&liquidity.strategy_parameters.parameters);
    data.append(&mut shape);
    assert(data@ =~= spec_add_liquidity_by_strategy_data(*liquidity));
    data
}

/// The arguments of the instruction that withdraws all liquidity: none.
pub fn remove_all_liquidity_data() -> (data: Vec<u8>)
    ensures
        data@ == REMOVE_ALL_LIQUIDITY_DISCRIMINATOR@,
{
    array_to_vec(&REMOVE_ALL_LIQUIDITY_DISCRIMINATOR)
}

/// The arguments of the instruction that claims fees: none.
pub fn claim_fee_data() -> (data: Vec<u8>)
    ensures
        data@ == CLAIM_FEE_DISCRIMINATOR@,
{
    array_to_vec(&CLAIM_FEE_DISCRIMINATOR)
}

/// The arguments of the instruction that closes a position: none.
pub fn close_position_data() -> (data: Vec<u8>)
    ensures
        data@ == CLOSE_POSITION_DISCRIMINATOR@,
{
    array_to_vec(&CLOSE_POSITION_DISCRIMINATOR)
}

/// Four bytes spell one signed number only.
pub proof fn lemma_le_i32_injective(a: i32, b: i32)
    requires
        le_i32(a) == le_i32(b),
    ensures
        a == b,
{
    lemma_pow256_values();
    lemma_le_value_of_bytes(twos_complement(a as int, 4), 4);
    lemma_le_value_of_bytes(twos_complement(b as int, 4), 4);
}

/// Eight bytes spell one unsigned number only.
pub proof fn lemma_le_u64_injective(a: u64, b: u64)
    requires
        le_u64(a) == le_u64(b),
    ensures
        a == b,
{
    lemma_pow256_values();
    lemma_le_value_of_bytes(a as nat, 8);
    lemma_le_value_of_bytes(b as nat, 8);
}

/// The arguments of a deposit reach the liquidity program as they were given: the encoding
/// has a fixed length and a fixed place for each argument, and two deposits with the same
/// encoding have the same amounts, the same expected active bin, the same tolerance for its
/// drift and the same strategy.
pub proof fn lemma_deposit_data_determines_arguments(
    a: LiquidityParameterByStrategy,
    b: LiquidityParameterByStrategy,
)
    requires
        spec_add_liquidity_by_strategy_data(a) == spec_add_liquidity_by_strategy_data(b),
    ensures
        spec_add_liquidity_by_strategy_data(a).len() == 105,
        spec_add_liquidity_by_strategy_data(a).subrange(28, 32) == le_i32(
            a.max_active_bin_slippage,
        ),
        a == b,
{
    let data_a = spec_add_liquidity_by_strategy_data(a);
    let data_b = spec_add_liquidity_by_strategy_data(b);
    lemma_deposit_data_layout(a);
    lemma_deposit_data_layout(b);
    lemma_le_u64_injective(a.amount_x, b.amount_x);
    lemma_le_u64_injective(a.amount_y, b.amount_y);
    lemma_le_i32_injective(a.active_id, b.active_id);
    lemma_le_i32_injective(a.max_active_bin_slippage, b.max_active_bin_slippage);
    lemma_le_i32_injective(a.strategy_parameters.min_bin_id, b.strategy_parameters.min_bin_id);
    lemma_le_i32_injective(a.strategy_parameters.max_bin_id, b.strategy_parameters.max_bin_id);
    assert(data_a[40] == data_b[40]);
    assert(a.strategy_parameters.strategy_type == b.strategy_parameters.strategy_type);
    assert(a.strategy_parameters.parameters@ == b.strategy_parameters.parameters@);
    assert(a.strategy_parameters.parameters =~= b.strategy_parameters.parameters);
}

/// Where each argument of a deposit stands in its encoding.
pub proof fn lemma_deposit_data_layout(liquidity: LiquidityParameterByStrategy)
    ensures
        ({
            let data = spec_add_liquidity_by_strategy_data(liquidity);
            let strategy = liquidity.strategy_parameters;
            &&& data.len() == 105
            &&& data.subrange(0, 8) == ADD_LIQUIDITY_BY_STRATEGY_DISCRIMINATOR@
            &&& data.subrange(8, 16) == le_u64(liquidity.amount_x)
            &&& data.subrange(16, 24) == le_u64(liquidity.amount_y)
            &&& data.subrange(24, 28) == le_i32(liquidity.active_id)
            &&& data.subrange(28, 32) == le_i32(liquidity.max_active_bin_slippage)
            &&& data.subrange(32, 36) == le_i32(strategy.min_bin_id)
            &&& data.subrange(36, 40) == le_i32(strategy.max_bin_id)
            &&& data[40] == strategy.strategy_type.spec_tag()
            &&& data.subrange(41, 105) == strategy.parameters@
        }),
{
    let data = spec_add_liquidity_by_strategy_data(liquidity);
    let strategy = liquidity.strategy_parameters;
    lemma_le_bytes_len(liquidity.amount_x as nat, 8);
    lemma_le_bytes_len(liquidity.amount_y as nat, 8);
    lemma_le_bytes_len(twos_complement(liquidity.active_id as int, 4), 4);
    lemma_le_bytes_len(twos_complement(liquidity.max_active_bin_slippage as int, 4), 4);
    lemma_le_bytes_len(twos_complement(strategy.min_bin_id as int, 4), 4);
    lemma_le_bytes_len(twos_complement(strategy.max_bin_id as int, 4), 4);
    assert(data.subrange(0, 8) =~= ADD_LIQUIDITY_BY_STRATEGY_DISCRIMINATOR@);
    assert(data.subrange(8, 16) =~= le_u64(liquidity.amount_x));
    assert(data.subrange(16, 24) =~= le_u64(liquidity.amount_y));
    assert(data.subrange(24, 28) =~= le_i32(liquidity.active_id));
    assert(data.subrange(28, 32) =~= le_i32(liquidity.max_active_bin_slippage));
    assert(data.subrange(32, 36) =~= le_i32(strategy.min_bin_id));
    assert(data.subrange(36, 40) =~= le_i32(strategy.max_bin_id));
    assert(data.subrange(41, 105) =~= strategy.parameters@);
}

/// The arguments of an open reach the liquidity program as they were given: two opens with
/// the same encoding have the same lowest bin and the same width.
pub proof fn lemma_initialize_position_data_determines_arguments(
    lower_bin_id: i32,
    width: i32,
    other_lower_bin_id: i32,
    other_width: i32,
)
    requires
        spec_initialize_position_data(lower_bin_id, width) == spec_initialize_position_data(
            other_lower_bin_id,
            other_width,
        ),
    ensures
        lower_bin_id == other_lower_bin_id,
        width == other_width,
{
    let data = spec_initialize_position_data(lower_bin_id, width);
    let other = spec_initialize_position_data(other_lower_bin_id, other_width);
    lemma_le_bytes_len(twos_complement(lower_bin_id as int, 4), 4);
    lemma_le_bytes_len(twos_complement(width as int, 4), 4);
    lemma_le_bytes_len(twos_complement(other_lower_bin_id as int, 4), 4);
    lemma_le_bytes_len(twos_complement(other_width as int, 4), 4);
    assert(data.subrange(8, 12) =~= le_i32(lower_bin_id));
    assert(data.subrange(12, 16) =~= le_i32(width));
    assert(other.subrange(8, 12) =~= le_i32(other_lower_bin_id));
    assert(other.subrange(12, 16) =~= le_i32(other_width));
    lemma_le_i32_injective(lower_bin_id, other_lower_bin_id);
    lemma_le_i32_injective(width, other_width);
}

} // verus!
