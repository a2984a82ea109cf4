//! A swap step by step, as a host carries it out that can answer one question at a time.
//!
//! [`start`] checks the accounts. From then on the swap stands at a stage: [`question`] says what
//! it needs from the host there, and [`advance`] takes the answer to the next stage, or to the end.
//! A host that cannot answer ends the swap with its own error. [`steps_make_the_swap`] shows that
//! the steps come to the same as the swap as a whole.
use vstd::prelude::*;

use crate::amm::error::ErrorCode;
use crate::amm::instructions::nebula_shield::{
    adopt_tick, manipulation_reference_tick, manipulation_tax_at, pre_swap_shield_at,
    record_swap_slot, shield_reference_tick, ArbAccount, SweepReport, TaxReport,
};
#[allow(unused_imports)]
use crate::amm::instructions::nebula_shield::{
    shield_effect, sweep_reference, sweep_with_account, tax_effect, trusted_config,
    MANIPULATION_WINDOW_SECONDS,
};
use crate::amm::instructions::swap_v2::{
    attribute_tax, check_addresses, check_pool, conclude, find_config, plan_call,
    route_remaining_accounts, settle, settlement_fee_queries, specified_fee_query, swap_event,
    FeeQuery, FeeSource, PriceBounds, RemainingAccount, RouteKeys, Settlement, Shielded, SwapCall,
    SwapDone, SwapEvent, SwapInternalResult, SwapRequest, SwapSingleV2,
};
#[allow(unused_imports)]
use crate::amm::instructions::swap_v2::{
    addresses_match, bounds_in_range, call_for, conclusion, config_among, direction, event_of,
    fee_from, fee_sources, settlement, short_time, specified, swap_in_range, swap_outcome,
    with_slot, with_tax, HostReplies,
};
use crate::amm::states::pool::PoolState;
use crate::arith::low_u32;
use crate::keys::Pubkey;

verus! {

/// What is known from the start of a swap.
#[derive(Clone, Copy, Debug)]
pub struct SwapSetting {
    pub request: SwapRequest,
    pub block_timestamp: u64,
    /// Current slot; none where the host has no clock
    pub slot: Option<u64>,
    pub program_id: Pubkey,
    /// By what the remaining accounts are told apart
    pub keys: RouteKeys,
    pub bounds: PriceBounds,
}

/// Amount and direction of a swap.
#[derive(Clone, Copy, Debug)]
pub struct Course {
    /// The amount that the user names, as the pool sees it
    pub amount: u64,
    /// The transfer fee on that amount
    pub transfer_fee: u64,
    /// Whether token 0 is swapped for token 1
    pub zero_for_one: bool,
}

/// How far a swap has got.
#[derive(Clone, Copy, Debug)]
pub enum SwapStage {
    /// The accounts are in order
    Checked,
    /// Amount and direction are known
    Aimed { course: Course },
    /// The sweep configuration, if any came, is found
    Routed { course: Course, arb_account: Option<ArbAccount> },
    /// The shield swept, or had no reason to
    Swept {
        course: Course,
        pool_state: PoolState,
        arb_account: Option<ArbAccount>,
        sweep: SweepReport,
    },
    /// The pool has the tick of its price
    Placed {
        course: Course,
        pool_state: PoolState,
        arb_account: Option<ArbAccount>,
        sweep: SweepReport,
    },
    /// The shield is done
    Guarded { course: Course, shield: Shielded, call: SwapCall },
    /// The host walked along the ticks
    Walked {
        course: Course,
        shield: Shielded,
        call: SwapCall,
        result: SwapInternalResult,
        pool_state: PoolState,
    },
    /// The amounts that change hands are known
    Settled {
        course: Course,
        shield: Shielded,
        call: SwapCall,
        result: SwapInternalResult,
        pool_state: PoolState,
        settled: Settlement,
    },
}

/// What a swap needs from the host.
#[derive(Clone, Copy, Debug)]
pub enum SwapQuestion {
    /// The transfer fee on the amount that the user names
    SpecifiedFee(FeeQuery),
    /// That the tick arrays among the remaining accounts can be loaded
    TickArrays,
    /// The square-root price at a tick, if there is a tick and it has a price
    SweepPrice(Option<i32>),
    /// The tick of a square-root price, if there is a price and it has a tick
    SweptTick(Option<u128>),
    /// The square-root price at a tick, if there is a tick and it has a price
    TaxPrice(Option<i32>),
    /// To publish what the shield did, to write pool and configuration, and to walk along the ticks
    Walk {
        call: SwapCall,
        pool_state: PoolState,
        arb_account: Option<ArbAccount>,
        sweep: SweepReport,
        tax: TaxReport,
    },
    /// To write the pool, and the transfer fees on token 0 and token 1 as far as they are not known
    SettlementFees { pool_state: PoolState, fee_0: FeeSource, fee_1: FeeSource },
    /// To publish the swap, to move the tokens, and the balances of the user after that
    Transfers { event: SwapEvent, deposit: u64, payout: u64 },
}

/// What the host answers.
#[derive(Clone, Copy, Debug)]
pub enum SwapAnswer {
    Fee(u64),
    Loaded,
    Price(Option<u128>),
    Tick(Option<i32>),
    /// What was swapped, and the pool after it
    Walked { swapped: SwapInternalResult, pool_after: PoolState },
    /// A fee that is known may be any number here
    Fees { fee_0: u64, fee_1: u64 },
    Balances { input: u64, output: u64 },
}

/// What comes of a step.
#[derive(Clone, Copy, Debug)]
pub enum SwapStep {
    /// The swap goes on
    Ask(SwapStage),
    /// The swap is refused
    Refused(ErrorCode),
    /// The swap is done
    Done(SwapDone),
    /// A number leaves its type, or the answer does not belong to the question
    NoOutcome,
}

/// The first stage of a swap, or why its accounts are refused.
pub open spec fn first_step(ctx: &SwapSingleV2) -> SwapStep {
    if addresses_match(ctx) {
        SwapStep::Ask(SwapStage::Checked)
    } else {
        SwapStep::Refused(ErrorCode::ConstraintAddress)
    }
}

/// Starts a swap.
pub fn start(ctx: &SwapSingleV2) -> (step: SwapStep)
    ensures
        step == first_step(ctx),
{
    match check_addresses(ctx) {
        Ok(_) => SwapStep::Ask(SwapStage::Checked),
        Err(error) => SwapStep::Refused(error),
    }
}

/// Tick of the average that the sweep of a swap is held against.
pub open spec fn sweep_tick(
    ctx: &SwapSingleV2,
    setting: SwapSetting,
    arb_account: Option<ArbAccount>,
) -> Option<i32> {
    match (trusted_config(arb_account, setting.keys.arb_config, setting.program_id), setting.slot) {
        (Some(config), Some(slot)) => match sweep_reference(
            config,
            &ctx.observation_state,
            slot,
            short_time(setting.block_timestamp),
        ) {
            Some(tick) => Some(tick as i32),
            None => None,
        },
        _ => None,
    }
}

/// Tick of the average that the tax of a swap is held against. Only a swap that names what it pays
/// is taxed.
pub open spec fn tax_tick(ctx: &SwapSingleV2, setting: SwapSetting) -> Option<i32> {
    if !setting.request.is_base_input {
        None
    } else {
        match ctx.observation_state.twap(
            MANIPULATION_WINDOW_SECONDS,
            short_time(setting.block_timestamp),
        ) {
            Some(tick) => Some(tick as i32),
            None => None,
        }
    }
}

/// What a swap needs from the host at a stage.
pub open spec fn question_at(
    ctx: &SwapSingleV2,
    setting: SwapSetting,
    stage: SwapStage,
) -> SwapQuestion {
    let request = setting.request;
    match stage {
        SwapStage::Checked => SwapQuestion::SpecifiedFee(
            if request.is_base_input {
                FeeQuery::TransferFee {
                    mint: ctx.input_vault_mint,
                    amount: request.amount_specified,
                }
            } else {
                FeeQuery::InverseFee {
                    mint: ctx.output_vault_mint,
                    amount: request.amount_specified,
                }
            },
        ),
        SwapStage::Aimed { .. } => SwapQuestion::TickArrays,
        SwapStage::Routed { arb_account, .. } => SwapQuestion::SweepPrice(
            sweep_tick(ctx, setting, arb_account),
        ),
        SwapStage::Swept { pool_state, sweep, .. } => SwapQuestion::SweptTick(
            if sweep.swept {
                Some(pool_state.sqrt_price_x64)
            } else {
                None
            },
        ),
        SwapStage::Placed { .. } => SwapQuestion::TaxPrice(tax_tick(ctx, setting)),
        SwapStage::Guarded { shield, call, .. } => SwapQuestion::Walk {
            call,
            pool_state: shield.pool_state,
            arb_account: shield.arb_account,
            sweep: shield.sweep,
            tax: shield.tax,
        },
        SwapStage::Walked { course, result, pool_state, .. } => {
            let sources = fee_sources(
                ctx,
                request,
                course.amount,
                course.transfer_fee,
                result,
                course.zero_for_one,
            );
            SwapQuestion::SettlementFees { pool_state, fee_0: sources.0, fee_1: sources.1 }
        },
        SwapStage::Settled { course, result, settled, .. } => SwapQuestion::Transfers {
            event: event_of(ctx, settled, result, course.zero_for_one),
            deposit: settled.deposit(course.zero_for_one),
            payout: settled.payout(course.zero_for_one),
        },
    }
}

/// Says what a swap needs from the host at a stage.
pub fn question(ctx: &SwapSingleV2, setting: &SwapSetting, stage: &SwapStage) -> (question:
    SwapQuestion)
    requires
        ctx.observation_state.valid(),
    ensures
        question == question_at(ctx, *setting, *stage),
{
    let now: u32 = low_u32(setting.block_timestamp);
    match *stage {
        SwapStage::Checked => SwapQuestion::SpecifiedFee(
            specified_fee_query(ctx, &setting.request),
        ),
        SwapStage::Aimed { .. } => SwapQuestion::TickArrays,
        SwapStage::Routed { arb_account, .. } => SwapQuestion::SweepPrice(
            shield_reference_tick(
                &ctx.observation_state,
                &arb_account,
                &setting.keys.arb_config,
                &setting.program_id,
                setting.slot,
                now,
            ),
        ),
        SwapStage::Swept { pool_state, sweep, .. } => SwapQuestion::SweptTick(
            if sweep.swept {
                Some(pool_state.sqrt_price_x64)
            } else {
                None
            },
        ),
        SwapStage::Placed { .. } => SwapQuestion::TaxPrice(
            if setting.request.is_base_input {
                manipulation_reference_tick(&ctx.observation_state, now)
            } else {
                None
            },
        ),
        SwapStage::Guarded { shield, call, .. } => SwapQuestion::Walk {
            call,
            pool_state: shield.pool_state,
            arb_account: shield.arb_account,
            sweep: shield.sweep,
            tax: shield.tax,
        },
        SwapStage::Walked { course, result, pool_state, .. } => {
            let (fee_0, fee_1) = settlement_fee_queries(
                ctx,
                &setting.request,
                course.amount,
                course.transfer_fee,
                &result,
                course.zero_for_one,
            );
            SwapQuestion::SettlementFees { pool_state, fee_0, fee_1 }
        },
        SwapStage::Settled { course, result, settled, .. } => {
            let (deposit, payout): (u64, u64) = settled.transfers(course.zero_for_one);
            SwapQuestion::Transfers {
                event: swap_event(ctx, &settled, &result, course.zero_for_one),
                deposit,
                payout,
            }
        },
    }
}

/// The stage after the transfer fee on the amount that the user names is known.
pub open spec fn aimed(ctx: &SwapSingleV2, setting: SwapSetting, transfer_fee: u64) -> SwapStep {
    let amount = specified(setting.request, transfer_fee);
    if !(0 <= amount <= u64::MAX) {
        SwapStep::NoOutcome
    } else {
        match direction(ctx, setting.block_timestamp) {
            Err(error) => SwapStep::Refused(error),
            Ok(zero_for_one) => SwapStep::Ask(
                SwapStage::Aimed {
                    course: Course { amount: amount as u64, transfer_fee, zero_for_one },
                },
            ),
        }
    }
}

fn aim(ctx: &SwapSingleV2, setting: &SwapSetting, transfer_fee: u64) -> (step: SwapStep)
    ensures
        step == aimed(ctx, *setting, transfer_fee),
{
    let amount: Option<u64> = if setting.request.is_base_input {
        setting.request.amount_specified.checked_sub(transfer_fee)
    } else {
        setting.request.amount_specified.checked_add(transfer_fee)
    };
    match amount {
        None => SwapStep::NoOutcome,
        Some(amount) => match check_pool(ctx, setting.block_timestamp) {
            Err(error) => SwapStep::Refused(error),
            Ok(zero_for_one) => SwapStep::Ask(
                SwapStage::Aimed { course: Course { amount, transfer_fee, zero_for_one } },
            ),
        },
    }
}

/// The stage after the price of the average for the sweep is known.
pub open spec fn swept(
    ctx: &SwapSingleV2,
    setting: SwapSetting,
    course: Course,
    arb_account: Option<ArbAccount>,
    price: Option<u128>,
) -> SwapStep {
    let (pool_state, arb_account, sweep) = shield_effect(
        ctx.pool_state,
        arb_account,
        sweep_with_account(
            ctx.pool_state,
            &ctx.observation_state,
            arb_account,
            setting.keys.arb_config,
            setting.program_id,
            setting.slot,
            short_time(setting.block_timestamp),
            price,
        ),
        setting.slot,
    );
    SwapStep::Ask(SwapStage::Swept { course, pool_state, arb_account, sweep })
}

fn sweep_pool(
    ctx: &SwapSingleV2,
    setting: &SwapSetting,
    course: Course,
    arb_account: Option<ArbAccount>,
    price: Option<u128>,
) -> (step: SwapStep)
    requires
        ctx.observation_state.valid(),
    ensures
        step == swept(ctx, *setting, course, arb_account, price),
{
    let mut pool_state = ctx.pool_state;
    let mut account = arb_account;
    let sweep = pre_swap_shield_at(
        &mut pool_state,
        &ctx.observation_state,
        &mut account,
        &setting.keys.arb_config,
        &setting.program_id,
        setting.slot,
        low_u32(setting.block_timestamp),
        price,
    );
    SwapStep::Ask(SwapStage::Swept { course, pool_state, arb_account: account, sweep })
}

/// The pool with the tick of the price that a sweep left it at.
pub open spec fn placed(pool: PoolState, sweep: SweepReport, tick: Option<i32>) -> PoolState {
    if sweep.swept && tick is Some {
        PoolState { tick_current: tick->0, ..pool }
    } else {
        pool
    }
}

/// The stage after the price of the average for the tax is known.
pub open spec fn guarded(
    ctx: &SwapSingleV2,
    setting: SwapSetting,
    course: Course,
    pool: PoolState,
    account: Option<ArbAccount>,
    sweep: SweepReport,
    price: Option<u128>,
) -> SwapStep {
    let (pool_state, arb_account, tax) = if setting.request.is_base_input {
        tax_effect(
            pool,
            &ctx.observation_state,
            account,
            setting.keys.arb_config,
            setting.program_id,
            short_time(setting.block_timestamp),
            course.amount,
            course.zero_for_one,
            setting.slot,
            price,
        )
    } else {
        (pool, account, TaxReport { tax_amount: 0, event: None })
    };
    if bounds_in_range(setting.request, course.zero_for_one, setting.bounds) {
        SwapStep::Ask(
            SwapStage::Guarded {
                course,
                shield: Shielded { pool_state, arb_account, sweep, tax },
                call: call_for(
                    setting.request,
                    course.amount,
                    tax.tax_amount,
                    course.zero_for_one,
                    setting.bounds,
                ),
            },
        )
    } else {
        SwapStep::NoOutcome
    }
}

fn guard_swap(
    ctx: &SwapSingleV2,
    setting: &SwapSetting,
    course: Course,
    pool: PoolState,
    account: Option<ArbAccount>,
    sweep: SweepReport,
    price: Option<u128>,
) -> (step: SwapStep)
    requires
        ctx.observation_state.valid(),
    ensures
        step == guarded(ctx, *setting, course, pool, account, sweep, price),
{
    let mut pool_state = pool;
    let mut arb_account = account;
    let tax = if setting.request.is_base_input {
        manipulation_tax_at(
            &mut pool_state,
            &ctx.observation_state,
            &mut arb_account,
            &setting.keys.arb_config,
            &setting.program_id,
            low_u32(setting.block_timestamp),
            course.amount,
            course.zero_for_one,
            setting.slot,
            price,
        )
    } else {
        TaxReport { tax_amount: 0, event: None }
    };
    let bounded = setting.request.sqrt_price_limit_x64 != 0 || if course.zero_for_one {
        setting.bounds.min_sqrt_price_x64 < u128::MAX
    } else {
        setting.bounds.max_sqrt_price_x64 > 0
    };
    if bounded {
        SwapStep::Ask(
            SwapStage::Guarded {
                course,
                shield: Shielded { pool_state, arb_account, sweep, tax },
                call: plan_call(
                    &setting.request,
                    course.amount,
                    tax.tax_amount,
                    course.zero_for_one,
                    &setting.bounds,
                ),
            },
        )
    } else {
        SwapStep::NoOutcome
    }
}

/// The stage after the host walked along the ticks.
pub open spec fn walked(
    setting: SwapSetting,
    course: Course,
    shield: Shielded,
    call: SwapCall,
    swapped: SwapInternalResult,
    pool_after: PoolState,
) -> SwapStep {
    let result = with_tax(swapped, shield.tax.tax_amount, course.zero_for_one);
    if result.amount_0 == 0 || result.amount_1 == 0 {
        SwapStep::Refused(ErrorCode::TooSmallInputOrOutputAmount)
    } else {
        SwapStep::Ask(
            SwapStage::Walked {
                course,
                shield,
                call,
                result,
                pool_state: with_slot(pool_after, setting.slot),
            },
        )
    }
}

fn take_walk(
    setting: &SwapSetting,
    course: Course,
    shield: Shielded,
    call: SwapCall,
    swapped: SwapInternalResult,
    pool_after: PoolState,
) -> (step: SwapStep)
    ensures
        step == walked(*setting, course, shield, call, swapped, pool_after),
{
    let mut pool_state = pool_after;
    if let Some(slot) = setting.slot {
        record_swap_slot(&mut pool_state, slot);
    }
    match attribute_tax(&swapped, shield.tax.tax_amount, course.zero_for_one) {
        Err(error) => SwapStep::Refused(error),
        Ok(result) => SwapStep::Ask(
            SwapStage::Walked { course, shield, call, result, pool_state },
        ),
    }
}

/// A fee that is known, or the answer to the question for it.
pub open spec fn fee_of(source: FeeSource, answer: u64) -> u64 {
    match source {
        FeeSource::Known(fee) => fee,
        FeeSource::Ask(_) => answer,
    }
}

/// Takes a fee that is known, or the answer to the question for it.
pub fn take_fee(source: &FeeSource, answer: u64) -> (fee: u64)
    ensures
        fee == fee_of(*source, answer),
{
    match source {
        FeeSource::Known(fee) => *fee,
        FeeSource::Ask(_) => answer,
    }
}

/// The stage after the transfer fees on both tokens are known.
pub open spec fn settled_with(
    ctx: &SwapSingleV2,
    setting: SwapSetting,
    course: Course,
    shield: Shielded,
    call: SwapCall,
    result: SwapInternalResult,
    pool_state: PoolState,
    fee_0: u64,
    fee_1: u64,
) -> SwapStep {
    let sources = fee_sources(
        ctx,
        setting.request,
        course.amount,
        course.transfer_fee,
        result,
        course.zero_for_one,
    );
    match settlement(
        result,
        fee_of(sources.0, fee_0),
        fee_of(sources.1, fee_1),
        course.zero_for_one,
    ) {
        Err(error) => SwapStep::Refused(error),
        Ok(settled) => SwapStep::Ask(
            SwapStage::Settled { course, shield, call, result, pool_state, settled },
        ),
    }
}

fn take_fees(
    ctx: &SwapSingleV2,
    setting: &SwapSetting,
    course: Course,
    shield: Shielded,
    call: SwapCall,
    result: SwapInternalResult,
    pool_state: PoolState,
    fee_0: u64,
    fee_1: u64,
) -> (step: SwapStep)
    ensures
        step == settled_with(
            ctx,
            *setting,
            course,
            shield,
            call,
            result,
            pool_state,
            fee_0,
            fee_1,
        ),
{
    let sources = settlement_fee_queries(
        ctx,
        &setting.request,
        course.amount,
        course.transfer_fee,
        &result,
        course.zero_for_one,
    );
    match settle(
        &result,
        take_fee(&sources.0, fee_0),
        take_fee(&sources.1, fee_1),
        course.zero_for_one,
    ) {
        Err(error) => SwapStep::Refused(error),
        Ok(settled) => SwapStep::Ask(
            SwapStage::Settled { course, shield, call, result, pool_state, settled },
        ),
    }
}

/// The end of a swap, once the balances of the user after the transfers are known.
pub open spec fn finished(
    ctx: &SwapSingleV2,
    setting: SwapSetting,
    course: Course,
    shield: Shielded,
    call: SwapCall,
    result: SwapInternalResult,
    pool_state: PoolState,
    settled: Settlement,
    input_balance: u64,
    output_balance: u64,
) -> SwapStep {
    match conclusion(
        ctx,
        setting.request,
        course.amount,
        course.zero_for_one,
        shield.pool_state.sqrt_price_x64,
        result.sqrt_price_x64,
        settled,
        input_balance,
        output_balance,
    ) {
        Err(error) => SwapStep::Refused(error),
        Ok(amount_result) => SwapStep::Done(
            SwapDone {
                amount_result,
                call,
                shielded_pool: shield.pool_state,
                deposit: settled.deposit(course.zero_for_one),
                payout: settled.payout(course.zero_for_one),
                event: event_of(ctx, settled, result, course.zero_for_one),
                sweep: shield.sweep,
                tax: shield.tax,
                pool_state,
                arb_account: shield.arb_account,
            },
        ),
    }
}

fn finish(
    ctx: &SwapSingleV2,
    setting: &SwapSetting,
    course: Course,
    shield: Shielded,
    call: SwapCall,
    result: SwapInternalResult,
    pool_state: PoolState,
    settled: Settlement,
    input_balance: u64,
    output_balance: u64,
) -> (step: SwapStep)
    ensures
        step == finished(
            ctx,
            *setting,
            course,
            shield,
            call,
            result,
            pool_state,
            settled,
            input_balance,
            output_balance,
        ),
{
    let (deposit, payout): (u64, u64) = settled.transfers(course.zero_for_one);
    match conclude(
        ctx,
        &setting.request,
        course.amount,
        course.zero_for_one,
        shield.pool_state.sqrt_price_x64,
        result.sqrt_price_x64,
        &settled,
        input_balance,
        output_balance,
    ) {
        Err(error) => SwapStep::Refused(error),
        Ok(amount_result) => SwapStep::Done(
            SwapDone {
                amount_result,
                call,
                shielded_pool: shield.pool_state,
                deposit,
                payout,
                event: swap_event(ctx, &settled, &result, course.zero_for_one),
                sweep: shield.sweep,
                tax: shield.tax,
                pool_state,
                arb_account: shield.arb_account,
            },
        ),
    }
}

/// What comes of the answer of the host at a stage.
pub open spec fn next_step(
    ctx: &SwapSingleV2,
    remaining: Seq<RemainingAccount>,
    setting: SwapSetting,
    stage: SwapStage,
    answer: SwapAnswer,
) -> SwapStep {
    match (stage, answer) {
        (SwapStage::Checked, SwapAnswer::Fee(fee)) => aimed(ctx, setting, fee),
        (SwapStage::Aimed { course }, SwapAnswer::Loaded) => SwapStep::Ask(
            SwapStage::Routed { course, arb_account: config_among(remaining, setting.keys) },
        ),
        (SwapStage::Routed { course, arb_account }, SwapAnswer::Price(price)) => swept(
            ctx,
            setting,
            course,
            arb_account,
            price,
        ),
        (SwapStage::Swept { course, pool_state, arb_account, sweep }, SwapAnswer::Tick(tick)) =>
            SwapStep::Ask(
            SwapStage::Placed {
                course,
                pool_state: placed(pool_state, sweep, tick),
                arb_account,
                sweep,
            },
        ),
        (SwapStage::Placed { course, pool_state, arb_account, sweep }, SwapAnswer::Price(price)) =>
            guarded(ctx, setting, course, pool_state, arb_account, sweep, price),
        (
            SwapStage::Guarded { course, shield, call },
            SwapAnswer::Walked { swapped, pool_after },
        ) => walked(setting, course, shield, call, swapped, pool_after),
        (
            SwapStage::Walked { course, shield, call, result, pool_state },
            SwapAnswer::Fees { fee_0, fee_1 },
        ) => settled_with(
            ctx,
            setting,
            course,
            shield,
            call,
            result,
            pool_state,
            fee_0,
            fee_1,
        ),
        (
            SwapStage::Settled { course, shield, call, result, pool_state, settled },
            SwapAnswer::Balances { input, output },
        ) => finished(
            ctx,
            setting,
            course,
            shield,
            call,
            result,
            pool_state,
            settled,
            input,
            output,
        ),
        _ => SwapStep::NoOutcome,
    }
}

/// Takes the answer of the host to the next stage of a swap, or to its end.
pub fn advance(
    ctx: &SwapSingleV2,
    remaining_accounts: &Vec<RemainingAccount>,
    setting: &SwapSetting,
    stage: &SwapStage,
    answer: &SwapAnswer,
) -> (step: SwapStep)
    requires
        ctx.observation_state.valid(),
    ensures
        step == next_step(ctx, remaining_accounts@, *setting, *stage, *answer),
{
    match (*stage, *answer) {
        (SwapStage::Checked, SwapAnswer::Fee(fee)) => aim(ctx, setting, fee),
        (SwapStage::Aimed { course }, SwapAnswer::Loaded) => {
            let routing = route_remaining_accounts(remaining_accounts, &setting.keys);
            let arb_account = find_config(remaining_accounts, &routing);
            SwapStep::Ask(SwapStage::Routed { course, arb_account })
        },
        (SwapStage::Routed { course, arb_account }, SwapAnswer::Price(price)) => sweep_pool(
            ctx,
            setting,
            course,
            arb_account,
            price,
        ),
        (SwapStage::Swept { course, pool_state, arb_account, sweep }, SwapAnswer::Tick(tick)) => {
            let mut moved = pool_state;
            if sweep.swept {
                adopt_tick(&mut moved, tick);
            }
            SwapStep::Ask(SwapStage::Placed { course, pool_state: moved, arb_account, sweep })
        },
        (SwapStage::Placed { course, pool_state, arb_account, sweep }, SwapAnswer::Price(price)) =>
            guard_swap(ctx, setting, course, pool_state, arb_account, sweep, price),
        (
            SwapStage::Guarded { course, shield, call },
            SwapAnswer::Walked { swapped, pool_after },
        ) => take_walk(setting, course, shield, call, swapped, pool_after),
        (
            SwapStage::Walked { course, shield, call, result, pool_state },
            SwapAnswer::Fees { fee_0, fee_1 },
        ) => take_fees(
            ctx,
            setting,
            course,
            shield,
            call,
            result,
            pool_state,
            fee_0,
            fee_1,
        ),
        (
            SwapStage::Settled { course, shield, call, result, pool_state, settled },
            SwapAnswer::Balances { input, output },
        ) => finish(
            ctx,
            setting,
            course,
            shield,
            call,
            result,
            pool_state,
            settled,
            input,
            output,
        ),
        _ => SwapStep::NoOutcome,
    }
}

// Laws.
/// How many stages a swap has passed.
pub open spec fn passed(stage: SwapStage) -> nat {
    match stage {
        SwapStage::Checked => 0,
        SwapStage::Aimed { .. } => 1,
        SwapStage::Routed { .. } => 2,
        SwapStage::Swept { .. } => 3,
        SwapStage::Placed { .. } => 4,
        SwapStage::Guarded { .. } => 5,
        SwapStage::Walked { .. } => 6,
        SwapStage::Settled { .. } => 7,
    }
}

/// Every answer takes a swap one stage further or to its end, so that it ends after eight answers.
pub proof fn swap_ends(
    ctx: &SwapSingleV2,
    remaining: Seq<RemainingAccount>,
    setting: SwapSetting,
    stage: SwapStage,
    answer: SwapAnswer,
)
    ensures
        passed(stage) < 8,
        next_step(ctx, remaining, setting, stage, answer) matches SwapStep::Ask(next)
            ==> passed(next) == passed(stage) + 1,
{
}

/// What is known from the start of a swap, among all answers of a host.
pub open spec fn setting_from(
    request: SwapRequest,
    replies: HostReplies,
    arb_config: Pubkey,
) -> SwapSetting {
    SwapSetting {
        request,
        block_timestamp: replies.block_timestamp,
        slot: replies.slot,
        program_id: replies.program_id,
        keys: replies.keys(arb_config),
        bounds: replies.bounds,
    }
}

/// The answer to the question of a stage, among all answers of a host, or the error with which the
/// host ends the swap there.
pub open spec fn answer_from(
    ctx: &SwapSingleV2,
    setting: SwapSetting,
    stage: SwapStage,
    replies: HostReplies,
) -> Result<SwapAnswer, ErrorCode> {
    match stage {
        SwapStage::Checked => match replies.specified_fee {
            Ok(fee) => Ok(SwapAnswer::Fee(fee)),
            Err(error) => Err(error),
        },
        SwapStage::Aimed { .. } => match replies.loaded {
            Ok(_) => Ok(SwapAnswer::Loaded),
            Err(error) => Err(error),
        },
        SwapStage::Routed { .. } => Ok(SwapAnswer::Price(replies.sweep_price)),
        SwapStage::Swept { .. } => Ok(SwapAnswer::Tick(replies.sweep_tick)),
        SwapStage::Placed { .. } => Ok(SwapAnswer::Price(replies.tax_price)),
        SwapStage::Guarded { .. } => match replies.walk {
            Ok((swapped, pool_after)) => Ok(SwapAnswer::Walked { swapped, pool_after }),
            Err(error) => Err(error),
        },
        SwapStage::Walked { course, result, .. } => {
            let sources = fee_sources(
                ctx,
                setting.request,
                course.amount,
                course.transfer_fee,
                result,
                course.zero_for_one,
            );
            match (fee_from(sources.0, replies.fee_0), fee_from(sources.1, replies.fee_1)) {
                (Err(error), _) => Err(error),
                (_, Err(error)) => Err(error),
                (Ok(fee_0), Ok(fee_1)) => Ok(SwapAnswer::Fees { fee_0, fee_1 }),
            }
        },
        SwapStage::Settled { .. } => match replies.moved {
            Ok(_) => Ok(
                SwapAnswer::Balances {
                    input: replies.input_balance,
                    output: replies.output_balance,
                },
            ),
            Err(error) => Err(error),
        },
    }
}

/// What a swap comes to from `step` on, with a host that gives these answers.
pub open spec fn run_from(
    ctx: &SwapSingleV2,
    remaining: Seq<RemainingAccount>,
    setting: SwapSetting,
    step: SwapStep,
    replies: HostReplies,
) -> SwapStep
    decreases
            (match step {
                SwapStep::Ask(stage) => 9 - passed(stage),
                _ => 0,
            }),
{
    match step {
        SwapStep::Ask(stage) => match answer_from(ctx, setting, stage, replies) {
            Ok(answer) => run_from(
                ctx,
                remaining,
                setting,
                next_step(ctx, remaining, setting, stage, answer),
                replies,
            ),
            Err(error) => SwapStep::Refused(error),
        },
        _ => step,
    }
}

/// Step by step, a swap comes to the same as all at once, for every host and whatever it answers.
#[verifier::rlimit(40)]
pub proof fn steps_make_the_swap(
    ctx: &SwapSingleV2,
    remaining: Seq<RemainingAccount>,
    request: SwapRequest,
    replies: HostReplies,
    arb_config: Pubkey,
)
    requires
        swap_in_range(ctx, request, replies),
    ensures
        run_from(
            ctx,
            remaining,
            setting_from(request, replies, arb_config),
            first_step(ctx),
            replies,
        ) == (match swap_outcome(ctx, remaining, request, replies, arb_config) {
            Ok(done) => SwapStep::Done(done),
            Err(error) => SwapStep::Refused(error),
        }),
{
    reveal_with_fuel(run_from, 10);
}

} // verus!
