//! Swap of one token of a pool for the other, under the shield of the pool.
//!
//! A swap alternates between decisions, which are made here, and work of the host: asking mints for
//! transfer fees, converting prices and ticks, walking the ticks of the pool, and moving tokens.
//! Each decision is a function that takes the host's last answer. In their order:
//!
//! 1. [`check_addresses`] and [`specified_fee_query`], answered by a transfer fee
//! 2. [`calculate_specified`], [`check_pool`] and [`route_remaining_accounts`]
//! 3. the sweep and the tax of the shield, answered by prices and ticks
//! 4. [`plan_call`], answered by the result of the walk
//! 5. [`attribute_tax`] and [`settlement_fee_queries`], answered by transfer fees
//! 6. [`settle`], after which the host moves the tokens and reads the balances again
//! 7. [`conclude`] and [`check_slippage`]
//!
//! [`swap_at`] is the swap as a whole, as a function of all answers of the host and of the address
//! of the sweep configuration; [`exact_internal_v2`] finds that address itself. The sibling module
//! `swap_steps` makes the same decisions one at a time, for a host that learns its answers on the
//! way.
use vstd::prelude::*;

use crate::amm::error::ErrorCode;
use crate::amm::instructions::nebula_shield::{
    adopt_tick, arb_config_address, manipulation_tax_at, pre_swap_shield_at, record_swap_slot,
    ArbAccount, SweepReport, TaxReport,
};
#[allow(unused_imports)]
use crate::amm::instructions::nebula_shield::{
    config_address, shield_effect, slot_recorded, sweep_with_account, tax_effect,
};
use crate::amm::states::nebula_shield::ArbConfig;
use crate::amm::states::oracle::ObservationState;
use crate::amm::states::pool::PoolState;
use crate::arith::low_u32;
use crate::keys::Pubkey;

verus! {

/// Memo of a swap: `raydium_swap`.
pub const SWAP_MEMO_MSG: [u8; 12] = [114, 97, 121, 100, 105, 117, 109, 95, 115, 119, 97, 112];

/// Token account of the user.
#[derive(Clone, Copy, Debug)]
pub struct TokenBalance {
    pub key: Pubkey,
    pub amount: u64,
}

/// Token account of the pool.
#[derive(Clone, Copy, Debug)]
pub struct Vault {
    pub key: Pubkey,
    pub mint: Pubkey,
}

/// Accounts of a swap.
#[derive(Debug)]
pub struct SwapSingleV2 {
    /// The user who swaps
    pub payer: Pubkey,
    /// Fee configuration
    pub amm_config: Pubkey,
    pub pool_key: Pubkey,
    pub pool_state: PoolState,
    /// Account of the user that pays
    pub input_token_account: TokenBalance,
    /// Account of the user that receives
    pub output_token_account: TokenBalance,
    /// Vault that receives
    pub input_vault: Vault,
    /// Vault that pays
    pub output_vault: Vault,
    pub observation_key: Pubkey,
    pub observation_state: ObservationState,
    /// Mint of the token that comes in
    pub input_vault_mint: Pubkey,
    /// Mint of the token that goes out
    pub output_vault_mint: Pubkey,
}

/// What the user asks for.
#[derive(Clone, Copy, Debug)]
pub struct SwapRequest {
    /// Amount to pay where `is_base_input` holds, amount to receive where not
    pub amount_specified: u64,
    /// Square-root price at which to stop; 0 for none
    pub sqrt_price_limit_x64: u128,
    pub is_base_input: bool,
}

/// Question to a mint.
#[derive(Clone, Copy, Debug)]
pub enum FeeQuery {
    /// Fee that is withheld when `amount` is sent
    TransferFee { mint: Pubkey, amount: u64 },
    /// Fee that is withheld when so much is sent that `amount` arrives
    InverseFee { mint: Pubkey, amount: u64 },
}

/// A fee that is known, or that a mint has to be asked for.
#[derive(Clone, Copy, Debug)]
pub enum FeeSource {
    Known(u64),
    Ask(FeeQuery),
}

/// Account that came with a swap beyond those it needs.
#[derive(Clone, Copy, Debug)]
pub struct RemainingAccount {
    pub key: Pubkey,
    pub owner: Pubkey,
    pub data_len: usize,
    /// The contents, where they decode as a sweep configuration
    pub arb_config: Option<ArbConfig>,
}

/// What the remaining accounts of a swap are, by position.
#[derive(Debug)]
pub struct Routing {
    pub bitmap_extension: Option<usize>,
    pub arb_config: Option<usize>,
    pub tick_arrays: Vec<usize>,
}

/// By what the remaining accounts of a swap are told apart.
#[derive(Clone, Copy, Debug)]
pub struct RouteKeys {
    /// Address of the tick bitmap extension of the pool
    pub bitmap_extension: Pubkey,
    /// Address of the sweep configuration of the pool
    pub arb_config: Pubkey,
    /// Size of a tick array account in bytes
    pub tick_array_len: usize,
}

/// Smallest and largest square-root price.
#[derive(Clone, Copy, Debug)]
pub struct PriceBounds {
    pub min_sqrt_price_x64: u128,
    pub max_sqrt_price_x64: u128,
}

/// What the host is asked to swap.
#[derive(Clone, Copy, Debug)]
pub struct SwapCall {
    pub amount: u64,
    pub sqrt_price_limit_x64: u128,
    pub zero_for_one: bool,
    pub is_base_input: bool,
}

/// What the host swapped.
#[derive(Clone, Copy, Debug)]
pub struct SwapInternalResult {
    pub amount_0: u64,
    pub amount_1: u64,
    pub sqrt_price_x64: u128,
    pub liquidity: u128,
    pub tick: i32,
    pub trade_fee_0: u64,
    pub trade_fee_1: u64,
}

/// Amounts of a swap with their transfer fees.
#[derive(Clone, Copy, Debug)]
pub struct Settlement {
    pub amount_0_without_fee: u64,
    pub amount_1_without_fee: u64,
    pub transfer_fee_0: u64,
    pub transfer_fee_1: u64,
    /// Amount of token 0 that changes hands
    pub transfer_amount_0: u64,
    /// Amount of token 1 that changes hands
    pub transfer_amount_1: u64,
}

/// A swap was made.
#[derive(Clone, Copy, Debug)]
pub struct SwapEvent {
    pub pool_state: Pubkey,
    pub sender: Pubkey,
    pub token_account_0: Pubkey,
    pub token_account_1: Pubkey,
    pub amount_0: u64,
    pub transfer_fee_0: u64,
    pub amount_1: u64,
    pub transfer_fee_1: u64,
    pub zero_for_one: bool,
    pub sqrt_price_x64: u128,
    pub liquidity: u128,
    pub tick: i32,
    pub trade_fee_0: u64,
    pub trade_fee_1: u64,
}

// Step 1.
/// Whether the accounts are those that the pool and the vaults name.
pub open spec fn addresses_match(ctx: &SwapSingleV2) -> bool {
    &&& ctx.amm_config == ctx.pool_state.amm_config
    &&& ctx.observation_key == ctx.pool_state.observation_key
    &&& ctx.input_vault_mint == ctx.input_vault.mint
    &&& ctx.output_vault_mint == ctx.output_vault.mint
}

/// Checks that the accounts are those that the pool and the vaults name.
pub fn check_addresses(ctx: &SwapSingleV2) -> (outcome: Result<(), ErrorCode>)
    ensures
        outcome == (if addresses_match(ctx) {
            Ok::<(), ErrorCode>(())
        } else {
            Err(ErrorCode::ConstraintAddress)
        }),
{
    if ctx.amm_config != ctx.pool_state.amm_config || ctx.observation_key
        != ctx.pool_state.observation_key || ctx.input_vault_mint != ctx.input_vault.mint
        || ctx.output_vault_mint != ctx.output_vault.mint {
        return Err(ErrorCode::ConstraintAddress);
    }
    Ok(())
}

/// The fee on the amount that the user names: what the input mint withholds of it, or what the
/// output mint withholds on top of it.
pub fn specified_fee_query(ctx: &SwapSingleV2, request: &SwapRequest) -> (query: FeeQuery)
    ensures
        query == (if request.is_base_input {
            FeeQuery::TransferFee { mint: ctx.input_vault_mint, amount: request.amount_specified }
        } else {
            FeeQuery::InverseFee { mint: ctx.output_vault_mint, amount: request.amount_specified }
        }),
{
    if request.is_base_input {
        FeeQuery::TransferFee { mint: ctx.input_vault_mint, amount: request.amount_specified }
    } else {
        FeeQuery::InverseFee { mint: ctx.output_vault_mint, amount: request.amount_specified }
    }
}

// Step 2.
/// The amount that the user names, as the pool sees it.
pub open spec fn specified(request: SwapRequest, transfer_fee: u64) -> int {
    if request.is_base_input {
        request.amount_specified - transfer_fee
    } else {
        request.amount_specified + transfer_fee
    }
}

/// The amount that the user names, as the pool sees it: without the fee where it comes in, with the
/// fee where it goes out.
pub fn calculate_specified(request: &SwapRequest, transfer_fee: u64) -> (amount: u64)
    requires
        0 <= specified(*request, transfer_fee) <= u64::MAX,
    ensures
        amount == specified(*request, transfer_fee),
{
    if request.is_base_input {
        request.amount_specified - transfer_fee
    } else {
        request.amount_specified + transfer_fee
    }
}

/// Whether token 0 is swapped for token 1.
pub open spec fn pays_token_0(ctx: &SwapSingleV2) -> bool {
    ctx.input_vault.mint == ctx.pool_state.token_mint_0
}

/// The direction of a swap, or why the pool refuses it.
pub open spec fn direction(ctx: &SwapSingleV2, block_timestamp: u64) -> Result<bool, ErrorCode> {
    let (paid_in, paid_out) = if pays_token_0(ctx) {
        (ctx.pool_state.token_vault_0, ctx.pool_state.token_vault_1)
    } else {
        (ctx.pool_state.token_vault_1, ctx.pool_state.token_vault_0)
    };
    if block_timestamp <= ctx.pool_state.padding1 {
        Err(ErrorCode::RequireGtViolated)
    } else if ctx.input_vault.key != paid_in || ctx.output_vault.key != paid_out {
        Err(ErrorCode::InvalidInputPoolVault)
    } else {
        Ok(pays_token_0(ctx))
    }
}

/// Checks that the pool is open and the vaults are its own, and tells whether token 0 is swapped
/// for token 1.
pub fn check_pool(ctx: &SwapSingleV2, block_timestamp: u64) -> (zero_for_one: Result<
    bool,
    ErrorCode,
>)
    ensures
        zero_for_one == direction(ctx, block_timestamp),
{
    let zero_for_one = ctx.input_vault.mint == ctx.pool_state.token_mint_0;
    if block_timestamp <= ctx.pool_state.padding1 {
        return Err(ErrorCode::RequireGtViolated);
    }
    let own_vaults = if zero_for_one {
        ctx.input_vault.key == ctx.pool_state.token_vault_0 && ctx.output_vault.key
            == ctx.pool_state.token_vault_1
    } else {
        ctx.input_vault.key == ctx.pool_state.token_vault_1 && ctx.output_vault.key
            == ctx.pool_state.token_vault_0
    };
    if !own_vaults {
        return Err(ErrorCode::InvalidInputPoolVault);
    }
    Ok(zero_for_one)
}

impl RouteKeys {
    pub open spec fn is_extension(self, account: RemainingAccount) -> bool {
        account.key == self.bitmap_extension
    }

    pub open spec fn is_config(self, account: RemainingAccount) -> bool {
        account.key != self.bitmap_extension && account.key == self.arb_config
    }

    pub open spec fn is_tick_array(self, account: RemainingAccount) -> bool {
        account.key != self.bitmap_extension && account.key != self.arb_config && account.data_len
            == self.tick_array_len
    }

    /// Whether an account is none of those that a swap knows.
    pub open spec fn is_unknown(self, account: RemainingAccount) -> bool {
        !self.is_extension(account) && !self.is_config(account) && !self.is_tick_array(account)
    }

    /// How many accounts, from position `from` on, come before the first unknown one.
    pub open spec fn known_end(self, accounts: Seq<RemainingAccount>, from: int) -> int
        decreases accounts.len() - from,
    {
        if from >= accounts.len() || self.is_unknown(accounts[from]) {
            from
        } else {
            self.known_end(accounts, from + 1)
        }
    }

    /// The last of the first `n` positions that holds the bitmap extension.
    pub open spec fn last_extension(self, accounts: Seq<RemainingAccount>, n: int) -> Option<usize>
        decreases n,
    {
        if n <= 0 {
            None
        } else if self.is_extension(accounts[n - 1]) {
            Some((n - 1) as usize)
        } else {
            self.last_extension(accounts, n - 1)
        }
    }

    /// The last of the first `n` positions that holds the sweep configuration.
    pub open spec fn last_config(self, accounts: Seq<RemainingAccount>, n: int) -> Option<usize>
        decreases n,
    {
        if n <= 0 {
            None
        } else if self.is_config(accounts[n - 1]) {
            Some((n - 1) as usize)
        } else {
            self.last_config(accounts, n - 1)
        }
    }

    /// Those of the first `n` positions that hold tick arrays, in order.
    pub open spec fn tick_arrays(self, accounts: Seq<RemainingAccount>, n: int) -> Seq<usize>
        decreases n,
    {
        if n <= 0 {
            Seq::empty()
        } else if self.is_tick_array(accounts[n - 1]) {
            self.tick_arrays(accounts, n - 1).push((n - 1) as usize)
        } else {
            self.tick_arrays(accounts, n - 1)
        }
    }
}

/// Tells the remaining accounts of a swap apart, up to the first one that is unknown.
pub fn route_remaining_accounts(accounts: &Vec<RemainingAccount>, keys: &RouteKeys) -> (routing:
    Routing)
    ensures
        ({
            let end = keys.known_end(accounts@, 0);
            &&& routing.bitmap_extension == keys.last_extension(accounts@, end)
            &&& routing.arb_config == keys.last_config(accounts@, end)
            &&& routing.tick_arrays@ == keys.tick_arrays(accounts@, end)
            &&& routing.arb_config matches Some(position) ==> position < accounts@.len()
            &&& routing.bitmap_extension matches Some(position) ==> position < accounts@.len()
            &&& forall|i: int|
                0 <= i < routing.tick_arrays@.len() ==> #[trigger] routing.tick_arrays@[i]
                    < accounts@.len()
        }),
{
    let mut routing = Routing {
        bitmap_extension: None,
        arb_config: None,
        tick_arrays: Vec::new(),
    };
    let mut i: usize = 0;
    while i < accounts.len()
        invariant
            i <= accounts@.len(),
            keys.known_end(accounts@, 0) == keys.known_end(accounts@, i as int),
            routing.bitmap_extension == keys.last_extension(accounts@, i as int),
            routing.arb_config == keys.last_config(accounts@, i as int),
            routing.tick_arrays@ == keys.tick_arrays(accounts@, i as int),
            routing.arb_config matches Some(position) ==> position < accounts@.len(),
            routing.bitmap_extension matches Some(position) ==> position < accounts@.len(),
            forall|j: int|
                0 <= j < routing.tick_arrays@.len() ==> #[trigger] routing.tick_arrays@[j]
                    < accounts@.len(),
        decreases accounts@.len() - i,
    {
        let account = accounts[i];
        if account.key == keys.bitmap_extension {
            routing.bitmap_extension = Some(i);
        } else if account.key == keys.arb_config {
            routing.arb_config = Some(i);
        } else if account.data_len != keys.tick_array_len {
            return routing;
        } else {
            routing.tick_arrays.push(i);
        }
        i = i + 1;
    }
    routing
}

// Step 3.
/// Pool, configuration account and reports after the shield looked at a swap.
#[derive(Clone, Copy, Debug)]
pub struct Shielded {
    pub pool_state: PoolState,
    pub arb_account: Option<ArbAccount>,
    pub sweep: SweepReport,
    pub tax: TaxReport,
}

/// What the host knows or computes for the shield.
#[derive(Clone, Copy, Debug)]
pub struct ShieldReplies {
    /// Address that the sweep configuration of the pool has to stand at
    pub expected_pda: Pubkey,
    pub program_id: Pubkey,
    /// Current slot; none where the host has no clock
    pub slot: Option<u64>,
    /// Square-root price at the long average
    pub sweep_price: Option<u128>,
    /// Tick of the price after a sweep
    pub sweep_tick: Option<i32>,
    /// Square-root price at the short average
    pub tax_price: Option<u128>,
}

/// A timestamp in the 32 bits that observations keep.
pub open spec fn short_time(block_timestamp: u64) -> u32 {
    (block_timestamp as int % 0x1_0000_0000) as u32
}

/// Pool, configuration account and reports after the shield looked at a swap of `amount`: first the
/// sweep, then, for a swap that names what it pays, the tax.
pub open spec fn shielded(
    pool: PoolState,
    observation: &ObservationState,
    account: Option<ArbAccount>,
    request: SwapRequest,
    amount: u64,
    zero_for_one: bool,
    block_timestamp: u64,
    replies: ShieldReplies,
) -> Shielded {
    let sweep = sweep_with_account(
        pool,
        observation,
        account,
        replies.expected_pda,
        replies.program_id,
        replies.slot,
        short_time(block_timestamp),
        replies.sweep_price,
    );
    let (swept_pool, swept_account, report) = shield_effect(pool, account, sweep, replies.slot);
    let moved_pool = match (sweep, replies.sweep_tick) {
        (Some(_), Some(tick)) => PoolState { tick_current: tick, ..swept_pool },
        _ => swept_pool,
    };
    let (taxed_pool, taxed_account, tax) = if request.is_base_input {
        tax_effect(
            moved_pool,
            observation,
            swept_account,
            replies.expected_pda,
            replies.program_id,
            short_time(block_timestamp),
            amount,
            zero_for_one,
            replies.slot,
            replies.tax_price,
        )
    } else {
        (moved_pool, swept_account, TaxReport { tax_amount: 0, event: None })
    };
    Shielded { pool_state: taxed_pool, arb_account: taxed_account, sweep: report, tax }
}

/// Runs the sweep and the tax of the shield before a swap of `amount`.
pub fn apply_shield(
    pool: &PoolState,
    observation: &ObservationState,
    arb_account: &Option<ArbAccount>,
    request: &SwapRequest,
    amount: u64,
    zero_for_one: bool,
    block_timestamp: u64,
    replies: &ShieldReplies,
) -> (effect: Shielded)
    requires
        observation.valid(),
    ensures
        effect == shielded(
            *pool,
            observation,
            *arb_account,
            *request,
            amount,
            zero_for_one,
            block_timestamp,
            *replies,
        ),
{
    let now: u32 = low_u32(block_timestamp);
    let mut pool_state = *pool;
    let mut arb_account = *arb_account;
    let sweep = pre_swap_shield_at(
        &mut pool_state,
        observation,
        &mut arb_account,
        &replies.expected_pda,
        &replies.program_id,
        replies.slot,
        now,
        replies.sweep_price,
    );
    if sweep.swept {
        adopt_tick(&mut pool_state, replies.sweep_tick);
    }
    let tax = if request.is_base_input {
        manipulation_tax_at(
            &mut pool_state,
            observation,
            &mut arb_account,
            &replies.expected_pda,
            &replies.program_id,
            now,
            amount,
            zero_for_one,
            replies.slot,
            replies.tax_price,
        )
    } else {
        TaxReport { tax_amount: 0, event: None }
    };
    Shielded { pool_state, arb_account, sweep, tax }
}

// Step 4.
/// One past the smallest price, or one before the largest, are prices.
pub open spec fn bounds_in_range(
    request: SwapRequest,
    zero_for_one: bool,
    bounds: PriceBounds,
) -> bool {
    request.sqrt_price_limit_x64 == 0 ==> if zero_for_one {
        bounds.min_sqrt_price_x64 < u128::MAX
    } else {
        bounds.max_sqrt_price_x64 > 0
    }
}

/// What the host is asked to swap: the amount without the tax, up to the limit, or up to the end of
/// the price range where there is none.
pub open spec fn call_for(
    request: SwapRequest,
    amount: u64,
    tax: u64,
    zero_for_one: bool,
    bounds: PriceBounds,
) -> SwapCall {
    SwapCall {
        amount: amount.saturating_sub(tax),
        sqrt_price_limit_x64: if request.sqrt_price_limit_x64 != 0 {
            request.sqrt_price_limit_x64
        } else if zero_for_one {
            (bounds.min_sqrt_price_x64 + 1) as u128
        } else {
            (bounds.max_sqrt_price_x64 - 1) as u128
        },
        zero_for_one,
        is_base_input: request.is_base_input,
    }
}

/// Says what the host is to swap.
pub fn plan_call(
    request: &SwapRequest,
    amount: u64,
    tax_amount: u64,
    zero_for_one: bool,
    bounds: &PriceBounds,
) -> (call: SwapCall)
    requires
        bounds_in_range(*request, zero_for_one, *bounds),
    ensures
        call == call_for(*request, amount, tax_amount, zero_for_one, *bounds),
{
    let sqrt_price_limit_x64: u128 = if request.sqrt_price_limit_x64 == 0 {
        if zero_for_one {
            bounds.min_sqrt_price_x64 + 1
        } else {
            bounds.max_sqrt_price_x64 - 1
        }
    } else {
        request.sqrt_price_limit_x64
    };
    SwapCall {
        amount: amount.saturating_sub(tax_amount),
        sqrt_price_limit_x64,
        zero_for_one,
        is_base_input: request.is_base_input,
    }
}

// Step 5.
/// What was swapped, with the tax on the side that pays.
pub open spec fn with_tax(
    result: SwapInternalResult,
    tax: u64,
    zero_for_one: bool,
) -> SwapInternalResult {
    if zero_for_one {
        SwapInternalResult { amount_0: result.amount_0.saturating_add(tax), ..result }
    } else {
        SwapInternalResult { amount_1: result.amount_1.saturating_add(tax), ..result }
    }
}

/// Adds the tax to the side that pays, and refuses a swap that moves nothing on one side.
pub fn attribute_tax(swapped: &SwapInternalResult, tax_amount: u64, zero_for_one: bool) -> (outcome:
    Result<SwapInternalResult, ErrorCode>)
    ensures
        ({
            let result = with_tax(*swapped, tax_amount, zero_for_one);
            outcome == (if result.amount_0 == 0 || result.amount_1 == 0 {
                Err(ErrorCode::TooSmallInputOrOutputAmount)
            } else {
                Ok(result)
            })
        }),
{
    let mut result = *swapped;
    if tax_amount > 0 {
        if zero_for_one {
            result.amount_0 = result.amount_0.saturating_add(tax_amount);
        } else {
            result.amount_1 = result.amount_1.saturating_add(tax_amount);
        }
    }
    if result.amount_0 == 0 || result.amount_1 == 0 {
        return Err(ErrorCode::TooSmallInputOrOutputAmount);
    }
    Ok(result)
}

/// Where the transfer fee on the paid amount comes from: it is known where the user named that
/// amount and all of it is used.
pub open spec fn paid_fee_source(
    ctx: &SwapSingleV2,
    request: SwapRequest,
    amount: u64,
    transfer_fee: u64,
    paid: u64,
) -> FeeSource {
    if request.is_base_input && paid == amount {
        FeeSource::Known(transfer_fee)
    } else {
        FeeSource::Ask(FeeQuery::InverseFee { mint: ctx.input_vault_mint, amount: paid })
    }
}

/// Where the transfer fees on both tokens come from.
pub open spec fn fee_sources(
    ctx: &SwapSingleV2,
    request: SwapRequest,
    amount: u64,
    transfer_fee: u64,
    result: SwapInternalResult,
    zero_for_one: bool,
) -> (FeeSource, FeeSource) {
    if zero_for_one {
        (
            paid_fee_source(ctx, request, amount, transfer_fee, result.amount_0),
            FeeSource::Ask(
                FeeQuery::TransferFee { mint: ctx.output_vault_mint, amount: result.amount_1 },
            ),
        )
    } else {
        (
            FeeSource::Ask(
                FeeQuery::TransferFee { mint: ctx.output_vault_mint, amount: result.amount_0 },
            ),
            paid_fee_source(ctx, request, amount, transfer_fee, result.amount_1),
        )
    }
}

/// Says where the transfer fees on token 0 and token 1 come from.
pub fn settlement_fee_queries(
    ctx: &SwapSingleV2,
    request: &SwapRequest,
    amount: u64,
    transfer_fee: u64,
    result: &SwapInternalResult,
    zero_for_one: bool,
) -> (sources: (FeeSource, FeeSource))
    ensures
        sources == fee_sources(ctx, *request, amount, transfer_fee, *result, zero_for_one),
{
    let (paid, received): (u64, u64) = if zero_for_one {
        (result.amount_0, result.amount_1)
    } else {
        (result.amount_1, result.amount_0)
    };
    let paid_fee = if request.is_base_input && paid == amount {
        FeeSource::Known(transfer_fee)
    } else {
        FeeSource::Ask(FeeQuery::InverseFee { mint: ctx.input_vault_mint, amount: paid })
    };
    let received_fee = FeeSource::Ask(
        FeeQuery::TransferFee { mint: ctx.output_vault_mint, amount: received },
    );
    if zero_for_one {
        (paid_fee, received_fee)
    } else {
        (received_fee, paid_fee)
    }
}

// Step 6.
/// The amounts of a swap: the user pays the fee on top of what comes in, and loses the fee out of
/// what goes out.
pub open spec fn settlement(
    result: SwapInternalResult,
    transfer_fee_0: u64,
    transfer_fee_1: u64,
    zero_for_one: bool,
) -> Result<Settlement, ErrorCode> {
    let (paid, paid_fee, received, received_fee) = if zero_for_one {
        (result.amount_0, transfer_fee_0, result.amount_1, transfer_fee_1)
    } else {
        (result.amount_1, transfer_fee_1, result.amount_0, transfer_fee_0)
    };
    if received < received_fee || paid + paid_fee > u64::MAX {
        Err(ErrorCode::CalculateOverflow)
    } else if zero_for_one {
        Ok(
            Settlement {
                amount_0_without_fee: paid,
                amount_1_without_fee: (received - received_fee) as u64,
                transfer_fee_0,
                transfer_fee_1,
                transfer_amount_0: (paid + paid_fee) as u64,
                transfer_amount_1: received,
            },
        )
    } else {
        Ok(
            Settlement {
                amount_0_without_fee: (received - received_fee) as u64,
                amount_1_without_fee: paid,
                transfer_fee_0,
                transfer_fee_1,
                transfer_amount_0: received,
                transfer_amount_1: (paid + paid_fee) as u64,
            },
        )
    }
}

/// Works out the amounts that change hands.
pub fn settle(
    result: &SwapInternalResult,
    transfer_fee_0: u64,
    transfer_fee_1: u64,
    zero_for_one: bool,
) -> (outcome: Result<Settlement, ErrorCode>)
    ensures
        outcome == settlement(*result, transfer_fee_0, transfer_fee_1, zero_for_one),
{
    if zero_for_one {
        match (
            result.amount_1.checked_sub(transfer_fee_1),
            result.amount_0.checked_add(transfer_fee_0),
        ) {
            (Some(amount_1_without_fee), Some(transfer_amount_0)) => Ok(
                Settlement {
                    amount_0_without_fee: result.amount_0,
                    amount_1_without_fee,
                    transfer_fee_0,
                    transfer_fee_1,
                    transfer_amount_0,
                    transfer_amount_1: result.amount_1,
                },
            ),
            _ => Err(ErrorCode::CalculateOverflow),
        }
    } else {
        match (
            result.amount_0.checked_sub(transfer_fee_0),
            result.amount_1.checked_add(transfer_fee_1),
        ) {
            (Some(amount_0_without_fee), Some(transfer_amount_1)) => Ok(
                Settlement {
                    amount_0_without_fee,
                    amount_1_without_fee: result.amount_1,
                    transfer_fee_0,
                    transfer_fee_1,
                    transfer_amount_0: result.amount_0,
                    transfer_amount_1,
                },
            ),
            _ => Err(ErrorCode::CalculateOverflow),
        }
    }
}

/// The event of a swap.
pub open spec fn event_of(
    ctx: &SwapSingleV2,
    settlement: Settlement,
    result: SwapInternalResult,
    zero_for_one: bool,
) -> SwapEvent {
    SwapEvent {
        pool_state: ctx.pool_key,
        sender: ctx.payer,
        token_account_0: if zero_for_one {
            ctx.input_token_account.key
        } else {
            ctx.output_token_account.key
        },
        token_account_1: if zero_for_one {
            ctx.output_token_account.key
        } else {
            ctx.input_token_account.key
        },
        amount_0: settlement.amount_0_without_fee,
        transfer_fee_0: settlement.transfer_fee_0,
        amount_1: settlement.amount_1_without_fee,
        transfer_fee_1: settlement.transfer_fee_1,
        zero_for_one,
        sqrt_price_x64: result.sqrt_price_x64,
        liquidity: result.liquidity,
        tick: result.tick,
        trade_fee_0: result.trade_fee_0,
        trade_fee_1: result.trade_fee_1,
    }
}

/// Writes down a swap.
pub fn swap_event(
    ctx: &SwapSingleV2,
    settlement: &Settlement,
    result: &SwapInternalResult,
    zero_for_one: bool,
) -> (event: SwapEvent)
    ensures
        event == event_of(ctx, *settlement, *result, zero_for_one),
{
    let (token_account_0, token_account_1) = if zero_for_one {
        (ctx.input_token_account.key, ctx.output_token_account.key)
    } else {
        (ctx.output_token_account.key, ctx.input_token_account.key)
    };
    SwapEvent {
        pool_state: ctx.pool_key,
        sender: ctx.payer,
        token_account_0,
        token_account_1,
        amount_0: settlement.amount_0_without_fee,
        transfer_fee_0: settlement.transfer_fee_0,
        amount_1: settlement.amount_1_without_fee,
        transfer_fee_1: settlement.transfer_fee_1,
        zero_for_one,
        sqrt_price_x64: result.sqrt_price_x64,
        liquidity: result.liquidity,
        tick: result.tick,
        trade_fee_0: result.trade_fee_0,
        trade_fee_1: result.trade_fee_1,
    }
}

impl Settlement {
    /// What the user sends to the pool.
    pub open spec fn deposit(self, zero_for_one: bool) -> u64 {
        if zero_for_one {
            self.transfer_amount_0
        } else {
            self.transfer_amount_1
        }
    }

    /// What the pool sends to the user.
    pub open spec fn payout(self, zero_for_one: bool) -> u64 {
        if zero_for_one {
            self.transfer_amount_1
        } else {
            self.transfer_amount_0
        }
    }

    /// What the user sends to the pool, and what the pool sends to the user.
    pub fn transfers(&self, zero_for_one: bool) -> (amounts: (u64, u64))
        ensures
            amounts == (self.deposit(zero_for_one), self.payout(zero_for_one)),
    {
        if zero_for_one {
            (self.transfer_amount_0, self.transfer_amount_1)
        } else {
            (self.transfer_amount_1, self.transfer_amount_0)
        }
    }
}

// Step 7.
/// The price went the way of the swap, or stayed.
pub open spec fn price_follows(before: u128, after: u128, zero_for_one: bool) -> bool {
    if zero_for_one {
        before >= after
    } else {
        after >= before
    }
}

/// All that the user named changed hands.
pub open spec fn fully_filled(
    request: SwapRequest,
    amount: u64,
    settlement: Settlement,
    zero_for_one: bool,
) -> bool {
    if request.is_base_input {
        request.amount_specified == settlement.deposit(zero_for_one)
    } else {
        amount == settlement.payout(zero_for_one)
    }
}

/// What the user received, where they named what they pay; what they paid, where they named what
/// they receive. Or why the swap is refused in the end.
pub open spec fn conclusion(
    ctx: &SwapSingleV2,
    request: SwapRequest,
    amount: u64,
    zero_for_one: bool,
    price_before: u128,
    price_after: u128,
    settlement: Settlement,
    input_balance: u64,
    output_balance: u64,
) -> Result<u64, ErrorCode> {
    let moved = if request.is_base_input {
        output_balance - ctx.output_token_account.amount
    } else {
        ctx.input_token_account.amount - input_balance
    };
    if !price_follows(price_before, price_after, zero_for_one) {
        Err(ErrorCode::RequireGteViolated)
    } else if request.sqrt_price_limit_x64 == 0 && !fully_filled(
        request,
        amount,
        settlement,
        zero_for_one,
    ) {
        Err(ErrorCode::RequireEqViolated)
    } else if moved < 0 {
        Err(ErrorCode::CalculateOverflow)
    } else {
        Ok(moved as u64)
    }
}

/// Checks a swap after the tokens moved, and measures it by the balances of the user.
/// `input_balance` and `output_balance` are the balances after the transfers; those in `ctx` are
/// the ones before.
pub fn conclude(
    ctx: &SwapSingleV2,
    request: &SwapRequest,
    amount: u64,
    zero_for_one: bool,
    price_before: u128,
    price_after: u128,
    settlement: &Settlement,
    input_balance: u64,
    output_balance: u64,
) -> (outcome: Result<u64, ErrorCode>)
    ensures
        outcome == conclusion(
            ctx,
            *request,
            amount,
            zero_for_one,
            price_before,
            price_after,
            *settlement,
            input_balance,
            output_balance,
        ),
{
    let follows = if zero_for_one {
        price_before >= price_after
    } else {
        price_after >= price_before
    };
    if !follows {
        return Err(ErrorCode::RequireGteViolated);
    }
    let (deposit, payout): (u64, u64) = settlement.transfers(zero_for_one);
    if request.sqrt_price_limit_x64 == 0 {
        let filled = if request.is_base_input {
            request.amount_specified == deposit
        } else {
            amount == payout
        };
        if !filled {
            return Err(ErrorCode::RequireEqViolated);
        }
    }
    let moved: Option<u64> = if request.is_base_input {
        output_balance.checked_sub(ctx.output_token_account.amount)
    } else {
        ctx.input_token_account.amount.checked_sub(input_balance)
    };
    match moved {
        Some(moved) => Ok(moved),
        None => Err(ErrorCode::CalculateOverflow),
    }
}

/// The result of a swap is within what the user accepts.
pub open spec fn accepted(
    amount_result: u64,
    other_amount_threshold: u64,
    is_base_input: bool,
) -> bool {
    if is_base_input {
        amount_result >= other_amount_threshold
    } else {
        other_amount_threshold >= amount_result
    }
}

/// Why a result that is not accepted is refused.
pub open spec fn slippage_error(is_base_input: bool) -> ErrorCode {
    if is_base_input {
        ErrorCode::TooLittleOutputReceived
    } else {
        ErrorCode::TooMuchInputPaid
    }
}

/// Refuses a swap that gave too little or cost too much.
pub fn check_slippage(
    amount_result: u64,
    other_amount_threshold: u64,
    is_base_input: bool,
) -> (outcome: Result<(), ErrorCode>)
    ensures
        outcome == (if accepted(amount_result, other_amount_threshold, is_base_input) {
            Ok::<(), ErrorCode>(())
        } else {
            Err(slippage_error(is_base_input))
        }),
{
    if is_base_input {
        if amount_result < other_amount_threshold {
            return Err(ErrorCode::TooLittleOutputReceived);
        }
    } else {
        if other_amount_threshold < amount_result {
            return Err(ErrorCode::TooMuchInputPaid);
        }
    }
    Ok(())
}

// The swap as a whole.
/// All that the host knows or computes for a swap.
#[derive(Clone, Copy, Debug)]
pub struct HostReplies {
    pub block_timestamp: u64,
    pub program_id: Pubkey,
    /// Address of the tick bitmap extension of the pool
    pub bitmap_extension: Pubkey,
    /// Size of a tick array account in bytes
    pub tick_array_len: usize,
    pub bounds: PriceBounds,
    /// Answer to [`specified_fee_query`]
    pub specified_fee: Result<u64, ErrorCode>,
    /// Whether the tick arrays could be loaded
    pub loaded: Result<(), ErrorCode>,
    /// Current slot; none where the host has no clock
    pub slot: Option<u64>,
    /// Square-root price at the long average
    pub sweep_price: Option<u128>,
    /// Tick of the price after a sweep
    pub sweep_tick: Option<i32>,
    /// Square-root price at the short average
    pub tax_price: Option<u128>,
    /// What was swapped, and the pool after it
    pub walk: Result<(SwapInternalResult, PoolState), ErrorCode>,
    /// Answer to the first of [`settlement_fee_queries`]
    pub fee_0: Result<u64, ErrorCode>,
    /// Answer to the second of [`settlement_fee_queries`]
    pub fee_1: Result<u64, ErrorCode>,
    /// Whether the tokens could be moved
    pub moved: Result<(), ErrorCode>,
    /// Balance of the paying account after the transfers
    pub input_balance: u64,
    /// Balance of the receiving account after the transfers
    pub output_balance: u64,
}

/// What a swap did.
#[derive(Clone, Copy, Debug)]
pub struct SwapDone {
    /// Amount received, where the user named what they pay; amount paid where not
    pub amount_result: u64,
    /// What the host was asked to swap
    pub call: SwapCall,
    /// The pool along which the host was asked to swap: as the shield left it
    pub shielded_pool: PoolState,
    /// What the user sent to the pool
    pub deposit: u64,
    /// What the pool sent to the user
    pub payout: u64,
    pub event: SwapEvent,
    pub sweep: SweepReport,
    pub tax: TaxReport,
    pub pool_state: PoolState,
    /// The sweep configuration that came with the swap
    pub arb_account: Option<ArbAccount>,
}

impl HostReplies {
    /// By what the remaining accounts are told apart, given the address of the sweep configuration.
    pub open spec fn keys(self, arb_config: Pubkey) -> RouteKeys {
        RouteKeys {
            bitmap_extension: self.bitmap_extension,
            arb_config,
            tick_array_len: self.tick_array_len,
        }
    }

    /// The answers that the shield needs, given the address of the sweep configuration.
    pub open spec fn for_shield(self, arb_config: Pubkey) -> ShieldReplies {
        ShieldReplies {
            expected_pda: arb_config,
            program_id: self.program_id,
            slot: self.slot,
            sweep_price: self.sweep_price,
            sweep_tick: self.sweep_tick,
            tax_price: self.tax_price,
        }
    }
}

/// A fee that is known, or the answer to the question for it.
pub open spec fn fee_from(source: FeeSource, answer: Result<u64, ErrorCode>) -> Result<
    u64,
    ErrorCode,
> {
    match source {
        FeeSource::Known(fee) => Ok(fee),
        FeeSource::Ask(_) => answer,
    }
}

/// Takes a fee that is known, or the answer to the question for it.
pub fn resolve_fee(source: &FeeSource, answer: &Result<u64, ErrorCode>) -> (fee: Result<
    u64,
    ErrorCode,
>)
    ensures
        fee == fee_from(*source, *answer),
{
    match source {
        FeeSource::Known(fee) => Ok(*fee),
        FeeSource::Ask(_) => *answer,
    }
}

/// The sweep configuration among the remaining accounts of a swap.
pub open spec fn config_among(remaining: Seq<RemainingAccount>, keys: RouteKeys) -> Option<
    ArbAccount,
> {
    match keys.last_config(remaining, keys.known_end(remaining, 0)) {
        Some(position) => {
            let account = remaining[position as int];
            Some(
                ArbAccount { key: account.key, owner: account.owner, config: account.arb_config },
            )
        },
        None => None,
    }
}

/// Picks the sweep configuration among the remaining accounts of a swap.
pub fn find_config(remaining: &Vec<RemainingAccount>, routing: &Routing) -> (account: Option<
    ArbAccount,
>)
    requires
        routing.arb_config matches Some(position) ==> position < remaining@.len(),
    ensures
        account == (match routing.arb_config {
            Some(position) => Some(
                ArbAccount {
                    key: remaining@[position as int].key,
                    owner: remaining@[position as int].owner,
                    config: remaining@[position as int].arb_config,
                },
            ),
            None => None,
        }),
{
    match routing.arb_config {
        Some(position) => {
            let account = remaining[position];
            Some(
                ArbAccount { key: account.key, owner: account.owner, config: account.arb_config },
            )
        },
        None => None,
    }
}

/// The pool with the slot of a swap on it.
pub open spec fn with_slot(pool: PoolState, slot: Option<u64>) -> PoolState {
    match slot {
        Some(slot) => slot_recorded(pool, slot),
        None => pool,
    }
}

/// The end of a swap: from what was swapped to what the user received or paid.
pub open spec fn swap_end(
    ctx: &SwapSingleV2,
    request: SwapRequest,
    amount: u64,
    transfer_fee: u64,
    zero_for_one: bool,
    shield: Shielded,
    swapped: SwapInternalResult,
    pool_after: PoolState,
    replies: HostReplies,
) -> Result<SwapDone, ErrorCode> {
    let result = with_tax(swapped, shield.tax.tax_amount, zero_for_one);
    let sources = fee_sources(ctx, request, amount, transfer_fee, result, zero_for_one);
    if result.amount_0 == 0 || result.amount_1 == 0 {
        Err(ErrorCode::TooSmallInputOrOutputAmount)
    } else {
        match (fee_from(sources.0, replies.fee_0), fee_from(sources.1, replies.fee_1)) {
            (Err(error), _) => Err(error),
            (_, Err(error)) => Err(error),
            (Ok(fee_0), Ok(fee_1)) => match settlement(result, fee_0, fee_1, zero_for_one) {
                Err(error) => Err(error),
                Ok(settled) => match (
                    replies.moved,
                    conclusion(
                        ctx,
                        request,
                        amount,
                        zero_for_one,
                        shield.pool_state.sqrt_price_x64,
                        result.sqrt_price_x64,
                        settled,
                        replies.input_balance,
                        replies.output_balance,
                    ),
                ) {
                    (Err(error), _) => Err(error),
                    (_, Err(error)) => Err(error),
                    (Ok(_), Ok(amount_result)) => Ok(
                        SwapDone {
                            amount_result,
                            call: call_for(
                                request,
                                amount,
                                shield.tax.tax_amount,
                                zero_for_one,
                                replies.bounds,
                            ),
                            shielded_pool: shield.pool_state,
                            deposit: settled.deposit(zero_for_one),
                            payout: settled.payout(zero_for_one),
                            event: event_of(ctx, settled, result, zero_for_one),
                            sweep: shield.sweep,
                            tax: shield.tax,
                            pool_state: with_slot(pool_after, replies.slot),
                            arb_account: shield.arb_account,
                        },
                    ),
                },
            },
        }
    }
}

/// Ends a swap: from what was swapped to what the user received or paid.
pub fn end_swap(
    ctx: &SwapSingleV2,
    request: &SwapRequest,
    amount: u64,
    transfer_fee: u64,
    zero_for_one: bool,
    shield: &Shielded,
    swapped: &SwapInternalResult,
    pool_after: &PoolState,
    replies: &HostReplies,
) -> (outcome: Result<SwapDone, ErrorCode>)
    requires
        bounds_in_range(*request, zero_for_one, replies.bounds),
    ensures
        outcome == swap_end(
            ctx,
            *request,
            amount,
            transfer_fee,
            zero_for_one,
            *shield,
            *swapped,
            *pool_after,
            *replies,
        ),
{
    let call = plan_call(
        request,
        amount,
        shield.tax.tax_amount,
        zero_for_one,
        &replies.bounds,
    );
    let result = match attribute_tax(swapped, shield.tax.tax_amount, zero_for_one) {
        Ok(result) => result,
        Err(error) => {
            return Err(error);
        },
    };
    let mut pool_state = *pool_after;
    if let Some(slot) = replies.slot {
        record_swap_slot(&mut pool_state, slot);
    }
    let sources = settlement_fee_queries(
        ctx,
        request,
        amount,
        transfer_fee,
        &result,
        zero_for_one,
    );
    let transfer_fee_0: u64 = match resolve_fee(&sources.0, &replies.fee_0) {
        Ok(fee) => fee,
        Err(error) => {
            return Err(error);
        },
    };
    let transfer_fee_1: u64 = match resolve_fee(&sources.1, &replies.fee_1) {
        Ok(fee) => fee,
        Err(error) => {
            return Err(error);
        },
    };
    let settled = match settle(&result, transfer_fee_0, transfer_fee_1, zero_for_one) {
        Ok(settled) => settled,
        Err(error) => {
            return Err(error);
        },
    };
    let event = swap_event(ctx, &settled, &result, zero_for_one);
    let (deposit, payout): (u64, u64) = settled.transfers(zero_for_one);
    if let Err(error) = replies.moved {
        return Err(error);
    }
    let amount_result: u64 = match conclude(
        ctx,
        request,
        amount,
        zero_for_one,
        shield.pool_state.sqrt_price_x64,
        result.sqrt_price_x64,
        &settled,
        replies.input_balance,
        replies.output_balance,
    ) {
        Ok(amount_result) => amount_result,
        Err(error) => {
            return Err(error);
        },
    };
    Ok(
        SwapDone {
            amount_result,
            call,
            shielded_pool: shield.pool_state,
            deposit,
            payout,
            event,
            sweep: shield.sweep,
            tax: shield.tax,
            pool_state,
            arb_account: shield.arb_account,
        },
    )
}

/// The shield at work on a swap.
pub open spec fn shield_of(
    ctx: &SwapSingleV2,
    remaining: Seq<RemainingAccount>,
    request: SwapRequest,
    amount: u64,
    zero_for_one: bool,
    replies: HostReplies,
    arb_config: Pubkey,
) -> Shielded {
    shielded(
        ctx.pool_state,
        &ctx.observation_state,
        config_among(remaining, replies.keys(arb_config)),
        request,
        amount,
        zero_for_one,
        replies.block_timestamp,
        replies.for_shield(arb_config),
    )
}

/// What a swap does, or why it is refused. `arb_config` is the address that the sweep configuration
/// of the pool has to stand at.
pub open spec fn swap_outcome(
    ctx: &SwapSingleV2,
    remaining: Seq<RemainingAccount>,
    request: SwapRequest,
    replies: HostReplies,
    arb_config: Pubkey,
) -> Result<SwapDone, ErrorCode> {
    if !addresses_match(ctx) {
        Err(ErrorCode::ConstraintAddress)
    } else {
        match (replies.specified_fee, direction(ctx, replies.block_timestamp), replies.loaded) {
            (Err(error), _, _) => Err(error),
            (_, Err(error), _) => Err(error),
            (_, _, Err(error)) => Err(error),
            (Ok(transfer_fee), Ok(zero_for_one), Ok(_)) => match replies.walk {
                Err(error) => Err(error),
                Ok((swapped, pool_after)) => {
                    let amount = specified(request, transfer_fee) as u64;
                    swap_end(
                        ctx,
                        request,
                        amount,
                        transfer_fee,
                        zero_for_one,
                        shield_of(
                            ctx,
                            remaining,
                            request,
                            amount,
                            zero_for_one,
                            replies,
                            arb_config,
                        ),
                        swapped,
                        pool_after,
                        replies,
                    )
                },
            },
        }
    }
}

/// The amount without or with its transfer fee, and the ends of the price range, fit their types,
/// as far as a swap gets.
pub open spec fn swap_in_range(
    ctx: &SwapSingleV2,
    request: SwapRequest,
    replies: HostReplies,
) -> bool {
    addresses_match(ctx) && replies.specified_fee is Ok ==> {
        &&& 0 <= specified(request, replies.specified_fee->Ok_0) <= u64::MAX
        &&& direction(ctx, replies.block_timestamp) is Ok && replies.loaded is Ok
            ==> bounds_in_range(
            request,
            direction(ctx, replies.block_timestamp)->Ok_0,
            replies.bounds,
        )
    }
}

/// The accounts after a swap. The observations are the host's to write, during the walk.
pub open spec fn accounts_after(
    ctx: SwapSingleV2,
    done: SwapDone,
    replies: HostReplies,
) -> SwapSingleV2 {
    SwapSingleV2 {
        pool_state: done.pool_state,
        input_token_account: TokenBalance {
            amount: replies.input_balance,
            ..ctx.input_token_account
        },
        output_token_account: TokenBalance {
            amount: replies.output_balance,
            ..ctx.output_token_account
        },
        ..ctx
    }
}

/// Swaps one token of a pool for the other, given all answers of the host and the address that the
/// sweep configuration of the pool has to stand at. The result tells what the user received, where
/// they named what they pay, and what they paid where not. A swap that is refused changes nothing.
pub fn swap_at(
    ctx: &mut SwapSingleV2,
    remaining_accounts: &Vec<RemainingAccount>,
    request: &SwapRequest,
    replies: &HostReplies,
    arb_config: &Pubkey,
) -> (outcome: Result<SwapDone, ErrorCode>)
    requires
        old(ctx).observation_state.valid(),
        swap_in_range(old(ctx), *request, *replies),
    ensures
        outcome == swap_outcome(
            old(ctx),
            remaining_accounts@,
            *request,
            *replies,
            *arb_config,
        ),
        match outcome {
            Ok(done) => *final(ctx) == accounts_after(*old(ctx), done, *replies),
            Err(_) => *final(ctx) == *old(ctx),
        },
{
    if let Err(error) = check_addresses(ctx) {
        return Err(error);
    }
    let transfer_fee: u64 = match replies.specified_fee {
        Ok(fee) => fee,
        Err(error) => {
            return Err(error);
        },
    };
    let amount: u64 = calculate_specified(request, transfer_fee);
    let zero_for_one = match check_pool(ctx, replies.block_timestamp) {
        Ok(zero_for_one) => zero_for_one,
        Err(error) => {
            return Err(error);
        },
    };
    let routing = route_remaining_accounts(
        remaining_accounts,
        &RouteKeys {
            bitmap_extension: replies.bitmap_extension,
            arb_config: *arb_config,
            tick_array_len: replies.tick_array_len,
        },
    );
    if let Err(error) = replies.loaded {
        return Err(error);
    }
    let arb_account = find_config(remaining_accounts, &routing);
    let shield = apply_shield(
        &ctx.pool_state,
        &ctx.observation_state,
        &arb_account,
        request,
        amount,
        zero_for_one,
        replies.block_timestamp,
        &ShieldReplies {
            expected_pda: *arb_config,
            program_id: replies.program_id,
            slot: replies.slot,
            sweep_price: replies.sweep_price,
            sweep_tick: replies.sweep_tick,
            tax_price: replies.tax_price,
        },
    );
    let (swapped, pool_after) = match replies.walk {
        Ok(walk) => walk,
        Err(error) => {
            return Err(error);
        },
    };
    let done = match end_swap(
        ctx,
        request,
        amount,
        transfer_fee,
        zero_for_one,
        &shield,
        &swapped,
        &pool_after,
        replies,
    ) {
        Ok(done) => done,
        Err(error) => {
            return Err(error);
        },
    };
    ctx.pool_state = done.pool_state;
    ctx.input_token_account.amount = replies.input_balance;
    ctx.output_token_account.amount = replies.output_balance;
    Ok(done)
}

/// Tests whether the numbers of a swap fit their types, as far as it gets.
pub fn is_swap_in_range(
    ctx: &SwapSingleV2,
    request: &SwapRequest,
    replies: &HostReplies,
) -> (fits: bool)
    ensures
        fits == swap_in_range(ctx, *request, *replies),
{
    if check_addresses(ctx).is_err() {
        return true;
    }
    let transfer_fee: u64 = match replies.specified_fee {
        Ok(fee) => fee,
        Err(_) => {
            return true;
        },
    };
    let amount: Option<u64> = if request.is_base_input {
        request.amount_specified.checked_sub(transfer_fee)
    } else {
        request.amount_specified.checked_add(transfer_fee)
    };
    if amount.is_none() {
        return false;
    }
    let zero_for_one = match check_pool(ctx, replies.block_timestamp) {
        Ok(zero_for_one) => zero_for_one,
        Err(_) => {
            return true;
        },
    };
    if replies.loaded.is_err() {
        return true;
    }
    if request.sqrt_price_limit_x64 != 0 {
        true
    } else if zero_for_one {
        replies.bounds.min_sqrt_price_x64 < u128::MAX
    } else {
        replies.bounds.max_sqrt_price_x64 > 0
    }
}

/// Whether a swap gets as far as looking for its sweep configuration.
pub open spec fn needs_config_address(ctx: &SwapSingleV2, replies: HostReplies) -> bool {
    &&& addresses_match(ctx)
    &&& replies.specified_fee is Ok
    &&& direction(ctx, replies.block_timestamp) is Ok
}

/// Whether a swap has an outcome: the pool has an address for its sweep configuration, if the swap
/// gets that far, and the numbers of the swap fit their types.
pub open spec fn has_outcome(
    ctx: &SwapSingleV2,
    request: SwapRequest,
    replies: HostReplies,
) -> bool {
    &&& needs_config_address(ctx, replies) ==> config_address(
        ctx.pool_key,
        replies.program_id,
    ) is Some
    &&& swap_in_range(ctx, request, replies)
}

/// Swaps one token of a pool for the other, given all answers of the host. None, with nothing
/// changed, where the pool has no address for its sweep configuration, or where the numbers leave
/// their types. The result tells what the user received, where they named what they pay, and what
/// they paid where not. A swap that is refused changes nothing.
pub fn exact_internal_v2(
    ctx: &mut SwapSingleV2,
    remaining_accounts: &Vec<RemainingAccount>,
    amount_specified: u64,
    sqrt_price_limit_x64: u128,
    is_base_input: bool,
    replies: &HostReplies,
) -> (outcome: Option<Result<SwapDone, ErrorCode>>)
    requires
        old(ctx).observation_state.valid(),
    ensures
        ({
            let request = SwapRequest { amount_specified, sqrt_price_limit_x64, is_base_input };
            if has_outcome(old(ctx), request, *replies) {
                outcome == Some(
                    swap_outcome(
                        old(ctx),
                        remaining_accounts@,
                        request,
                        *replies,
                        config_address(old(ctx).pool_key, replies.program_id)->0,
                    ),
                )
            } else {
                outcome is None
            }
        }),
        match outcome {
            Some(Ok(done)) => *final(ctx) == accounts_after(*old(ctx), done, *replies),
            _ => *final(ctx) == *old(ctx),
        },
{
    let request = SwapRequest { amount_specified, sqrt_price_limit_x64, is_base_input };
    let arb_config = match arb_config_address(&ctx.pool_key, &replies.program_id) {
        Some(address) => address,
        None => {
            if let Err(error) = check_addresses(ctx) {
                return Some(Err(error));
            }
            let transfer_fee: u64 = match replies.specified_fee {
                Ok(fee) => fee,
                Err(error) => {
                    return Some(Err(error));
                },
            };
            let fits = if is_base_input {
                transfer_fee <= amount_specified
            } else {
                transfer_fee <= u64::MAX - amount_specified
            };
            return match check_pool(ctx, replies.block_timestamp) {
                Err(error) if fits => Some(Err(error)),
                _ => None,
            };
        },
    };
    if !is_swap_in_range(ctx, &request, replies) {
        return None;
    }
    Some(swap_at(ctx, remaining_accounts, &request, replies, &arb_config))
}

/// [`swap_outcome`] under the user's limit on what is received or paid.
pub open spec fn limited_outcome(
    ctx: &SwapSingleV2,
    remaining: Seq<RemainingAccount>,
    request: SwapRequest,
    other_amount_threshold: u64,
    replies: HostReplies,
    arb_config: Pubkey,
) -> Result<SwapDone, ErrorCode> {
    match swap_outcome(ctx, remaining, request, replies, arb_config) {
        Err(error) => Err(error),
        Ok(done) => if accepted(
            done.amount_result,
            other_amount_threshold,
            request.is_base_input,
        ) {
            Ok(done)
        } else {
            Err(slippage_error(request.is_base_input))
        },
    }
}

/// Swaps one token of a pool for the other, and refuses a swap that gives the user less than
/// `other_amount_threshold`, where they named what they pay, or costs them more, where they named
/// what they receive. None, with nothing changed, where [`exact_internal_v2`] has no outcome.
pub fn swap_v2(
    ctx: &mut SwapSingleV2,
    remaining_accounts: &Vec<RemainingAccount>,
    amount: u64,
    other_amount_threshold: u64,
    sqrt_price_limit_x64: u128,
    is_base_input: bool,
    replies: &HostReplies,
) -> (outcome: Option<Result<SwapDone, ErrorCode>>)
    requires
        old(ctx).observation_state.valid(),
    ensures
        ({
            let request = SwapRequest {
                amount_specified: amount,
                sqrt_price_limit_x64,
                is_base_input,
            };
            if has_outcome(old(ctx), request, *replies) {
                outcome == Some(
                    limited_outcome(
                        old(ctx),
                        remaining_accounts@,
                        request,
                        other_amount_threshold,
                        *replies,
                        config_address(old(ctx).pool_key, replies.program_id)->0,
                    ),
                )
            } else {
                outcome is None
            }
        }),
        match outcome {
            Some(Ok(done)) => *final(ctx) == accounts_after(*old(ctx), done, *replies),
            _ => *final(ctx) == *old(ctx),
        },
{
    let pool_before = ctx.pool_state;
    let input_before: u64 = ctx.input_token_account.amount;
    let output_before: u64 = ctx.output_token_account.amount;
    let outcome = exact_internal_v2(
        ctx,
        remaining_accounts,
        amount,
        sqrt_price_limit_x64,
        is_base_input,
        replies,
    );
    if let Some(Ok(done)) = outcome {
        if let Err(error) = check_slippage(
            done.amount_result,
            other_amount_threshold,
            is_base_input,
        ) {
            ctx.pool_state = pool_before;
            ctx.input_token_account.amount = input_before;
            ctx.output_token_account.amount = output_before;
            return Some(Err(error));
        }
    }
    outcome
}

// Laws.
/// The shield never blocks a swap: whatever configuration comes with it, and whatever the host
/// answers to the shield, a swap has an outcome where it has one without them.
pub proof fn shield_never_blocks_a_swap(
    ctx: &SwapSingleV2,
    request: SwapRequest,
    replies: HostReplies,
    slot: Option<u64>,
    sweep_price: Option<u128>,
    sweep_tick: Option<i32>,
    tax_price: Option<u128>,
)
    requires
        has_outcome(ctx, request, replies),
    ensures
        has_outcome(
            ctx,
            request,
            HostReplies { slot, sweep_price, sweep_tick, tax_price, ..replies },
        ),
{
}

/// A swap gives the user at least what they ask for, or costs them at most what they accept.
pub proof fn swap_respects_threshold(
    ctx: &SwapSingleV2,
    remaining: Seq<RemainingAccount>,
    request: SwapRequest,
    other_amount_threshold: u64,
    replies: HostReplies,
    arb_config: Pubkey,
)
    requires
        limited_outcome(
            ctx,
            remaining,
            request,
            other_amount_threshold,
            replies,
            arb_config,
        ) is Ok,
    ensures
        ({
            let done = limited_outcome(
                ctx,
                remaining,
                request,
                other_amount_threshold,
                replies,
                arb_config,
            )->Ok_0;
            if request.is_base_input {
                &&& done.amount_result >= other_amount_threshold
                &&& done.amount_result == replies.output_balance - ctx.output_token_account.amount
            } else {
                &&& done.amount_result <= other_amount_threshold
                &&& done.amount_result == ctx.input_token_account.amount - replies.input_balance
            }
        }),
{
}

/// Without a price limit a swap is made in full or not at all: the user pays exactly what they
/// name, or is sent exactly what they name and the fee on it.
pub proof fn swap_without_limit_is_full(
    ctx: &SwapSingleV2,
    remaining: Seq<RemainingAccount>,
    request: SwapRequest,
    replies: HostReplies,
    arb_config: Pubkey,
)
    requires
        swap_in_range(ctx, request, replies),
        request.sqrt_price_limit_x64 == 0,
        swap_outcome(ctx, remaining, request, replies, arb_config) is Ok,
    ensures
        ({
            let done = swap_outcome(ctx, remaining, request, replies, arb_config)->Ok_0;
            if request.is_base_input {
                done.deposit == request.amount_specified
            } else {
                done.payout == request.amount_specified + replies.specified_fee->Ok_0
            }
        }),
{
}

/// The price moves in the direction of the swap, from where the shield left it.
pub proof fn swap_moves_price_its_way(
    ctx: &SwapSingleV2,
    remaining: Seq<RemainingAccount>,
    request: SwapRequest,
    replies: HostReplies,
    arb_config: Pubkey,
)
    requires
        swap_outcome(ctx, remaining, request, replies, arb_config) is Ok,
    ensures
        ({
            let done = swap_outcome(ctx, remaining, request, replies, arb_config)->Ok_0;
            let start = done.shielded_pool.sqrt_price_x64;
            &&& done.call.zero_for_one == pays_token_0(ctx)
            &&& pays_token_0(ctx) ==> done.event.sqrt_price_x64 <= start
            &&& !pays_token_0(ctx) ==> done.event.sqrt_price_x64 >= start
        }),
{
}

/// The host swaps along a pool that has the tax on the fees of the side that pays, to the last
/// unit, as long as nothing was swept and the fee counter has room.
pub proof fn tax_is_booked_before_the_swap(
    ctx: &SwapSingleV2,
    remaining: Seq<RemainingAccount>,
    request: SwapRequest,
    replies: HostReplies,
    arb_config: Pubkey,
)
    requires
        swap_outcome(ctx, remaining, request, replies, arb_config) is Ok,
        !swap_outcome(ctx, remaining, request, replies, arb_config)->Ok_0.sweep.swept,
    ensures
        ({
            let done = swap_outcome(ctx, remaining, request, replies, arb_config)->Ok_0;
            let before = ctx.pool_state;
            let after = done.shielded_pool;
            let tax = done.tax.tax_amount;
            if pays_token_0(ctx) {
                &&& after == (PoolState {
                    protocol_fees_token_0: after.protocol_fees_token_0,
                    ..before
                })
                &&& before.protocol_fees_token_0 + tax <= u64::MAX ==> after.protocol_fees_token_0
                    == before.protocol_fees_token_0 + tax
            } else {
                &&& after == (PoolState {
                    protocol_fees_token_1: after.protocol_fees_token_1,
                    ..before
                })
                &&& before.protocol_fees_token_1 + tax <= u64::MAX ==> after.protocol_fees_token_1
                    == before.protocol_fees_token_1 + tax
            }
        }),
{
}

/// A taxed swap costs the user the whole amount: what the host is asked to swap and the tax add up
/// to it, and the tax never takes all of it.
pub proof fn tax_and_swap_add_up(
    ctx: &SwapSingleV2,
    remaining: Seq<RemainingAccount>,
    request: SwapRequest,
    replies: HostReplies,
    arb_config: Pubkey,
)
    requires
        swap_in_range(ctx, request, replies),
        swap_outcome(ctx, remaining, request, replies, arb_config) is Ok,
    ensures
        ({
            let done = swap_outcome(ctx, remaining, request, replies, arb_config)->Ok_0;
            let amount = specified(request, replies.specified_fee->Ok_0);
            &&& done.call.amount + done.tax.tax_amount == amount
            &&& done.tax.tax_amount > 0 ==> done.call.amount > 0
            &&& !request.is_base_input ==> done.tax.tax_amount == 0
        }),
{
}

/// A swap that comes with no sweep configuration is neither swept nor taxed: the host is asked to
/// swap all of it.
pub proof fn unguarded_swap_is_untouched(
    ctx: &SwapSingleV2,
    remaining: Seq<RemainingAccount>,
    request: SwapRequest,
    replies: HostReplies,
    arb_config: Pubkey,
)
    requires
        swap_in_range(ctx, request, replies),
        swap_outcome(ctx, remaining, request, replies, arb_config) is Ok,
        config_among(remaining, replies.keys(arb_config)) is None,
    ensures
        ({
            let done = swap_outcome(ctx, remaining, request, replies, arb_config)->Ok_0;
            &&& !done.sweep.swept
            &&& done.tax.tax_amount == 0
            &&& done.call.amount == specified(request, replies.specified_fee->Ok_0)
            &&& done.arb_account is None
        }),
{
}

} // verus!
