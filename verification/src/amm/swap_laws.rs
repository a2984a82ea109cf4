//! What a swap does, in terms of what the user asked for, what the accounts hold and what the host
//! answers.
use vstd::prelude::*;

#[allow(unused_imports)]
use crate::amm::error::ErrorCode;
#[allow(unused_imports)]
use crate::amm::instructions::nebula_shield::{
    config_address, shield_effect, sweep_with_account, tax_effect, ArbAccount,
};
#[allow(unused_imports)]
use crate::amm::instructions::swap_steps::{
    question_at, sweep_tick, tax_tick, SwapQuestion, SwapSetting, SwapStage,
};
use crate::amm::instructions::swap_v2::{
    HostReplies, RemainingAccount, RouteKeys, SwapDone, SwapRequest, SwapSingleV2,
};
#[allow(unused_imports)]
use crate::amm::instructions::swap_v2::{
    accounts_after, config_among, fee_sources, has_outcome, limited_outcome, shield_of,
    swap_in_range, swap_outcome, FeeQuery, FeeSource, SwapInternalResult,
};
#[allow(unused_imports)]
use crate::amm::states::pool::PoolState;
use crate::keys::Pubkey;

verus! {

/// What the host is asked to swap is what the user asked for: in the direction of the token that
/// they pay, up to the price limit that they gave, and without one up to the end of the price range
/// on that side. A user who names what they pay has that amount swapped without its transfer fee
/// and without the tax; one who names what they receive has the fee on it swapped too.
pub proof fn call_is_what_the_user_asked_for(
    ctx: &SwapSingleV2,
    remaining: Seq<RemainingAccount>,
    request: SwapRequest,
    replies: HostReplies,
    arb_config: Pubkey,
)
    requires
        swap_in_range(ctx, request, replies),
        swap_outcome(ctx, remaining, request, replies, arb_config) is Ok,
    ensures
        ({
            let done = swap_outcome(ctx, remaining, request, replies, arb_config)->Ok_0;
            let fee = replies.specified_fee->Ok_0;
            let pays_first = ctx.input_vault.mint == ctx.pool_state.token_mint_0;
            &&& done.call.zero_for_one == pays_first
            &&& done.call.is_base_input == request.is_base_input
            &&& request.sqrt_price_limit_x64 != 0 ==> done.call.sqrt_price_limit_x64
                == request.sqrt_price_limit_x64
            &&& request.sqrt_price_limit_x64 == 0 && pays_first ==> done.call.sqrt_price_limit_x64
                == replies.bounds.min_sqrt_price_x64 + 1
            &&& request.sqrt_price_limit_x64 == 0 && !pays_first ==> done.call.sqrt_price_limit_x64
                == replies.bounds.max_sqrt_price_x64 - 1
            &&& request.is_base_input ==> done.call.amount + done.tax.tax_amount + fee
                == request.amount_specified
            &&& !request.is_base_input ==> done.call.amount == request.amount_specified + fee
                && done.tax.tax_amount == 0
        }),
{
}

/// The answer of the host to the question for a transfer fee, on the side that the user pays.
pub open spec fn paid_answer(replies: HostReplies, pays_first: bool) -> Result<u64, ErrorCode> {
    if pays_first {
        replies.fee_0
    } else {
        replies.fee_1
    }
}

/// The answer of the host to the question for a transfer fee, on the side that the user receives.
pub open spec fn received_answer(replies: HostReplies, pays_first: bool) -> Result<u64, ErrorCode> {
    if pays_first {
        replies.fee_1
    } else {
        replies.fee_0
    }
}

/// What the user sends is what was swapped on their side, with the tax and the transfer fee on
/// both; what they are sent is what was swapped on the other side, of which the mint keeps its fee.
/// The fee that was asked for at the start is used where all of the amount that the user named is
/// swapped; otherwise the mint is asked again.
pub proof fn amounts_follow_the_walk(
    ctx: &SwapSingleV2,
    remaining: Seq<RemainingAccount>,
    request: SwapRequest,
    replies: HostReplies,
    arb_config: Pubkey,
)
    requires
        swap_in_range(ctx, request, replies),
        swap_outcome(ctx, remaining, request, replies, arb_config) is Ok,
    ensures
        ({
            let done = swap_outcome(ctx, remaining, request, replies, arb_config)->Ok_0;
            let swapped = replies.walk->Ok_0.0;
            let pays_first = ctx.input_vault.mint == ctx.pool_state.token_mint_0;
            let (walked_in, walked_out) = if pays_first {
                (swapped.amount_0, swapped.amount_1)
            } else {
                (swapped.amount_1, swapped.amount_0)
            };
            let paid = if walked_in + done.tax.tax_amount > u64::MAX {
                u64::MAX as int
            } else {
                walked_in + done.tax.tax_amount
            };
            let whole = request.is_base_input && paid + replies.specified_fee->Ok_0
                == request.amount_specified;
            let fee_in = if whole {
                replies.specified_fee->Ok_0
            } else {
                paid_answer(replies, pays_first)->Ok_0
            };
            let fee_out = received_answer(replies, pays_first)->Ok_0;
            let (event_in, event_fee_in, event_out, event_fee_out) = if pays_first {
                (
                    done.event.amount_0,
                    done.event.transfer_fee_0,
                    done.event.amount_1,
                    done.event.transfer_fee_1,
                )
            } else {
                (
                    done.event.amount_1,
                    done.event.transfer_fee_1,
                    done.event.amount_0,
                    done.event.transfer_fee_0,
                )
            };
            &&& done.deposit == paid + fee_in
            &&& done.payout == walked_out
            &&& event_in == paid
            &&& event_fee_in == fee_in
            &&& event_out + fee_out == walked_out
            &&& event_fee_out == fee_out
        }),
{
}

/// A swap is published with its pool, its user, their accounts on the side of each token, and what
/// the host found.
pub proof fn event_tells_the_swap(
    ctx: &SwapSingleV2,
    remaining: Seq<RemainingAccount>,
    request: SwapRequest,
    replies: HostReplies,
    arb_config: Pubkey,
)
    requires
        swap_outcome(ctx, remaining, request, replies, arb_config) is Ok,
    ensures
        ({
            let event = swap_outcome(ctx, remaining, request, replies, arb_config)->Ok_0.event;
            let swapped = replies.walk->Ok_0.0;
            let pays_first = ctx.input_vault.mint == ctx.pool_state.token_mint_0;
            &&& event.pool_state == ctx.pool_key
            &&& event.sender == ctx.payer
            &&& event.zero_for_one == pays_first
            &&& pays_first ==> event.token_account_0 == ctx.input_token_account.key
                && event.token_account_1 == ctx.output_token_account.key
            &&& !pays_first ==> event.token_account_1 == ctx.input_token_account.key
                && event.token_account_0 == ctx.output_token_account.key
            &&& event.sqrt_price_x64 == swapped.sqrt_price_x64
            &&& event.liquidity == swapped.liquidity
            &&& event.tick == swapped.tick
            &&& event.trade_fee_0 == swapped.trade_fee_0
            &&& event.trade_fee_1 == swapped.trade_fee_1
        }),
{
}

/// A swap is worth what the balance of the user changed by: what came in where they named what they
/// pay, what went out where they named what they receive.
pub proof fn swap_is_measured_by_balances(
    ctx: &SwapSingleV2,
    remaining: Seq<RemainingAccount>,
    request: SwapRequest,
    replies: HostReplies,
    arb_config: Pubkey,
)
    requires
        swap_outcome(ctx, remaining, request, replies, arb_config) is Ok,
    ensures
        ({
            let done = swap_outcome(ctx, remaining, request, replies, arb_config)->Ok_0;
            if request.is_base_input {
                replies.output_balance == ctx.output_token_account.amount + done.amount_result
            } else {
                ctx.input_token_account.amount == replies.input_balance + done.amount_result
            }
        }),
{
}

/// The pool after a swap is the one that the host walked to, with the slot of the swap on it.
pub proof fn pool_is_where_the_host_walked_to(
    ctx: &SwapSingleV2,
    remaining: Seq<RemainingAccount>,
    request: SwapRequest,
    replies: HostReplies,
    arb_config: Pubkey,
)
    requires
        swap_outcome(ctx, remaining, request, replies, arb_config) is Ok,
    ensures
        ({
            let done = swap_outcome(ctx, remaining, request, replies, arb_config)->Ok_0;
            let walked = replies.walk->Ok_0.1;
            match replies.slot {
                Some(slot) => done.pool_state == (PoolState { open_time: slot, ..walked }),
                None => done.pool_state == walked,
            }
        }),
{
}

/// A swap writes the pool and the balances of the user, and nothing else.
pub proof fn swap_writes_pool_and_balances(
    ctx: SwapSingleV2,
    done: SwapDone,
    replies: HostReplies,
)
    ensures
        ({
            let after = accounts_after(ctx, done, replies);
            &&& after.pool_state == done.pool_state
            &&& after.input_token_account.amount == replies.input_balance
            &&& after.input_token_account.key == ctx.input_token_account.key
            &&& after.output_token_account.amount == replies.output_balance
            &&& after.output_token_account.key == ctx.output_token_account.key
            &&& after == (SwapSingleV2 {
                pool_state: after.pool_state,
                input_token_account: after.input_token_account,
                output_token_account: after.output_token_account,
                ..ctx
            })
        }),
{
}

/// Why a swap is refused, in the order in which it is found out: accounts that the pool and the
/// vaults do not name, no transfer fee, a pool that is not open yet, vaults of another pool, tick
/// arrays that do not load, a walk that fails, nothing moved on one side, no transfer fees at the
/// end, fees that do not fit, transfers that fail, a price that went the wrong way, a swap without
/// a limit that is not full, balances that went the wrong way. Any other swap is made.
pub proof fn swap_is_refused_for_a_reason(
    ctx: &SwapSingleV2,
    remaining: Seq<RemainingAccount>,
    request: SwapRequest,
    replies: HostReplies,
    arb_config: Pubkey,
)
    requires
        swap_in_range(ctx, request, replies),
    ensures
        ({
            let pool = ctx.pool_state;
            let pays_first = ctx.input_vault.mint == pool.token_mint_0;
            let fee = replies.specified_fee->Ok_0;
            let amount = if request.is_base_input {
                request.amount_specified - fee
            } else {
                request.amount_specified + fee
            };
            let shield = shield_of(
                ctx,
                remaining,
                request,
                amount as u64,
                pays_first,
                replies,
                arb_config,
            );
            let tax = shield.tax.tax_amount;
            let swapped = replies.walk->Ok_0.0;
            let (walked_in, walked_out) = if pays_first {
                (swapped.amount_0, swapped.amount_1)
            } else {
                (swapped.amount_1, swapped.amount_0)
            };
            let paid = if walked_in + tax > u64::MAX {
                u64::MAX as int
            } else {
                walked_in + tax
            };
            let known = request.is_base_input && paid == amount;
            let paid_fee = if known {
                Ok(fee)
            } else {
                paid_answer(replies, pays_first)
            };
            let received_fee = received_answer(replies, pays_first);
            let (fee_0, fee_1) = if pays_first {
                (paid_fee, received_fee)
            } else {
                (received_fee, paid_fee)
            };
            let before = shield.pool_state.sqrt_price_x64;
            let reason = if ctx.amm_config != pool.amm_config || ctx.observation_key
                != pool.observation_key || ctx.input_vault_mint != ctx.input_vault.mint
                || ctx.output_vault_mint != ctx.output_vault.mint {
                Some(ErrorCode::ConstraintAddress)
            } else if replies.specified_fee is Err {
                Some(replies.specified_fee->Err_0)
            } else if replies.block_timestamp <= pool.padding1 {
                Some(ErrorCode::RequireGtViolated)
            } else if pays_first && (ctx.input_vault.key != pool.token_vault_0
                || ctx.output_vault.key != pool.token_vault_1) || !pays_first && (
            ctx.input_vault.key != pool.token_vault_1 || ctx.output_vault.key
                != pool.token_vault_0) {
                Some(ErrorCode::InvalidInputPoolVault)
            } else if replies.loaded is Err {
                Some(replies.loaded->Err_0)
            } else if replies.walk is Err {
                Some(replies.walk->Err_0)
            } else if paid == 0 || walked_out == 0 {
                Some(ErrorCode::TooSmallInputOrOutputAmount)
            } else if fee_0 is Err {
                Some(fee_0->Err_0)
            } else if fee_1 is Err {
                Some(fee_1->Err_0)
            } else if walked_out < received_fee->Ok_0 || paid + paid_fee->Ok_0 > u64::MAX {
                Some(ErrorCode::CalculateOverflow)
            } else if replies.moved is Err {
                Some(replies.moved->Err_0)
            } else if pays_first && swapped.sqrt_price_x64 > before || !pays_first
                && swapped.sqrt_price_x64 < before {
                Some(ErrorCode::RequireGteViolated)
            } else if request.sqrt_price_limit_x64 == 0 && request.is_base_input && paid
                + paid_fee->Ok_0 != request.amount_specified {
                Some(ErrorCode::RequireEqViolated)
            } else if request.sqrt_price_limit_x64 == 0 && !request.is_base_input && walked_out
                != amount {
                Some(ErrorCode::RequireEqViolated)
            } else if request.is_base_input && replies.output_balance
                < ctx.output_token_account.amount || !request.is_base_input
                && replies.input_balance > ctx.input_token_account.amount {
                Some(ErrorCode::CalculateOverflow)
            } else {
                None
            };
            match swap_outcome(ctx, remaining, request, replies, arb_config) {
                Ok(_) => reason is None,
                Err(error) => reason == Some(error),
            }
        }),
{
}

/// A swap that is made is kept exactly where it gives at least what the user wants to receive, or
/// costs at most what they want to pay; otherwise it is refused with the reason of its side.
pub proof fn threshold_decides_on_the_swap(
    ctx: &SwapSingleV2,
    remaining: Seq<RemainingAccount>,
    request: SwapRequest,
    threshold: u64,
    replies: HostReplies,
    arb_config: Pubkey,
)
    ensures
        ({
            let outcome = limited_outcome(
                ctx,
                remaining,
                request,
                threshold,
                replies,
                arb_config,
            );
            match swap_outcome(ctx, remaining, request, replies, arb_config) {
                Err(error) => outcome == Err::<SwapDone, ErrorCode>(error),
                Ok(done) => if request.is_base_input {
                    &&& done.amount_result >= threshold ==> outcome == Ok::<SwapDone, ErrorCode>(
                        done,
                    )
                    &&& done.amount_result < threshold ==> outcome == Err::<SwapDone, ErrorCode>(
                        ErrorCode::TooLittleOutputReceived,
                    )
                } else {
                    &&& done.amount_result <= threshold ==> outcome == Ok::<SwapDone, ErrorCode>(
                        done,
                    )
                    &&& done.amount_result > threshold ==> outcome == Err::<SwapDone, ErrorCode>(
                        ErrorCode::TooMuchInputPaid,
                    )
                },
            }
        }),
{
}

/// A swap has an outcome unless its transfer fee takes the amount out of its range, the price range
/// has no end on the side of a swap without a limit, or the pool has no configuration address, each
/// as far as the swap gets.
pub proof fn swap_has_an_outcome(ctx: &SwapSingleV2, request: SwapRequest, replies: HostReplies)
    ensures
        ({
            let pool = ctx.pool_state;
            let pays_first = ctx.input_vault.mint == pool.token_mint_0;
            let named = ctx.amm_config == pool.amm_config && ctx.observation_key
                == pool.observation_key && ctx.input_vault_mint == ctx.input_vault.mint
                && ctx.output_vault_mint == ctx.output_vault.mint;
            let fee = replies.specified_fee->Ok_0;
            let fits = if request.is_base_input {
                fee <= request.amount_specified
            } else {
                request.amount_specified + fee <= u64::MAX
            };
            let open = replies.block_timestamp > pool.padding1 && if pays_first {
                ctx.input_vault.key == pool.token_vault_0 && ctx.output_vault.key
                    == pool.token_vault_1
            } else {
                ctx.input_vault.key == pool.token_vault_1 && ctx.output_vault.key
                    == pool.token_vault_0
            };
            let bounded = request.sqrt_price_limit_x64 != 0 || if pays_first {
                replies.bounds.min_sqrt_price_x64 < u128::MAX
            } else {
                replies.bounds.max_sqrt_price_x64 > 0
            };
            has_outcome(ctx, request, replies) <==> (!named || replies.specified_fee is Err || {
                &&& fits
                &&& open ==> config_address(ctx.pool_key, replies.program_id) is Some
                &&& open && replies.loaded is Ok ==> bounded
            })
        }),
{
}

/// Before a swap the shield sweeps the pool, and takes the tick that the host finds for its new
/// price. Then, where the user names what they pay, it taxes the amount as the pool sees it. The
/// host walks along what the shield leaves.
pub proof fn shield_comes_before_the_walk(
    ctx: &SwapSingleV2,
    remaining: Seq<RemainingAccount>,
    request: SwapRequest,
    replies: HostReplies,
    arb_config: Pubkey,
)
    requires
        swap_in_range(ctx, request, replies),
        swap_outcome(ctx, remaining, request, replies, arb_config) is Ok,
    ensures
        ({
            let done = swap_outcome(ctx, remaining, request, replies, arb_config)->Ok_0;
            let account = config_among(remaining, replies.keys(arb_config));
            let now = (replies.block_timestamp as int % 0x1_0000_0000) as u32;
            let (swept, swept_account, report) = shield_effect(
                ctx.pool_state,
                account,
                sweep_with_account(
                    ctx.pool_state,
                    &ctx.observation_state,
                    account,
                    arb_config,
                    replies.program_id,
                    replies.slot,
                    now,
                    replies.sweep_price,
                ),
                replies.slot,
            );
            let placed = if report.swept && replies.sweep_tick is Some {
                PoolState { tick_current: replies.sweep_tick->0, ..swept }
            } else {
                swept
            };
            &&& done.sweep == report
            &&& request.is_base_input ==> (done.shielded_pool, done.arb_account, done.tax)
                == tax_effect(
                placed,
                &ctx.observation_state,
                swept_account,
                arb_config,
                replies.program_id,
                now,
                (request.amount_specified - replies.specified_fee->Ok_0) as u64,
                ctx.input_vault.mint == ctx.pool_state.token_mint_0,
                replies.slot,
                replies.tax_price,
            )
            &&& !request.is_base_input ==> done.shielded_pool == placed && done.arb_account
                == swept_account && done.tax.tax_amount == 0 && done.tax.event is None
        }),
{
}

// The accounts that come with a swap.
/// An account that a swap knows: the bitmap extension, the sweep configuration, or one of the size
/// of a tick array.
pub open spec fn known(account: RemainingAccount, keys: RouteKeys) -> bool {
    ||| account.key == keys.bitmap_extension
    ||| account.key == keys.arb_config
    ||| account.data_len == keys.tick_array_len
}

/// The accounts are read up to the first one that is unknown.
pub proof fn accounts_are_read_up_to_an_unknown_one(
    keys: RouteKeys,
    accounts: Seq<RemainingAccount>,
    from: int,
)
    requires
        0 <= from <= accounts.len(),
    ensures
        from <= keys.known_end(accounts, from) <= accounts.len(),
        forall|i: int|
            from <= i < keys.known_end(accounts, from) ==> known(#[trigger] accounts[i], keys),
        keys.known_end(accounts, from) < accounts.len() ==> !known(
            accounts[keys.known_end(accounts, from)],
            keys,
        ),
    decreases accounts.len() - from,
{
    if from < accounts.len() && known(accounts[from], keys) {
        accounts_are_read_up_to_an_unknown_one(keys, accounts, from + 1);
    }
}

/// Among the accounts that are read, the last one at the address of the bitmap extension is it.
pub proof fn last_extension_counts(keys: RouteKeys, accounts: Seq<RemainingAccount>, n: int)
    requires
        0 <= n <= accounts.len() <= usize::MAX,
    ensures
        match keys.last_extension(accounts, n) {
            Some(position) => {
                &&& position < n
                &&& accounts[position as int].key == keys.bitmap_extension
                &&& forall|i: int|
                    position < i < n ==> (#[trigger] accounts[i]).key != keys.bitmap_extension
            },
            None => forall|i: int|
                0 <= i < n ==> (#[trigger] accounts[i]).key != keys.bitmap_extension,
        },
    decreases n,
{
    if n > 0 && accounts[n - 1].key != keys.bitmap_extension {
        last_extension_counts(keys, accounts, n - 1);
    }
}

/// Whether an account stands at the address of the sweep configuration, and not at that of the
/// bitmap extension.
pub open spec fn at_config(account: RemainingAccount, keys: RouteKeys) -> bool {
    account.key == keys.arb_config && account.key != keys.bitmap_extension
}

/// Among the accounts that are read, the last one at the address of the sweep configuration is it.
pub proof fn last_config_counts(keys: RouteKeys, accounts: Seq<RemainingAccount>, n: int)
    requires
        0 <= n <= accounts.len() <= usize::MAX,
    ensures
        match keys.last_config(accounts, n) {
            Some(position) => {
                &&& position < n
                &&& at_config(accounts[position as int], keys)
                &&& forall|i: int| position < i < n ==> !at_config(#[trigger] accounts[i], keys)
            },
            None => forall|i: int| 0 <= i < n ==> !at_config(#[trigger] accounts[i], keys),
        },
    decreases n,
{
    if n > 0 && !at_config(accounts[n - 1], keys) {
        last_config_counts(keys, accounts, n - 1);
    }
}

/// The sweep configuration of a swap is the contents of that account, with its address and owner.
pub proof fn config_is_among_the_accounts(keys: RouteKeys, accounts: Seq<RemainingAccount>)
    requires
        accounts.len() <= usize::MAX,
    ensures
        match config_among(accounts, keys) {
            Some(account) => {
                &&& account.key == keys.arb_config
                &&& account.key != keys.bitmap_extension
                &&& exists|i: int|
                    0 <= i < accounts.len() && account.key == (#[trigger] accounts[i]).key
                        && account.owner == accounts[i].owner && account.config
                        == accounts[i].arb_config
            },
            None => forall|i: int|
                0 <= i < keys.known_end(accounts, 0) ==> !at_config(#[trigger] accounts[i], keys),
        },
{
    accounts_are_read_up_to_an_unknown_one(keys, accounts, 0);
    last_config_counts(keys, accounts, keys.known_end(accounts, 0));
}

/// Whether an account is a tick array: of that size, and at neither of the two addresses.
pub open spec fn holds_ticks(account: RemainingAccount, keys: RouteKeys) -> bool {
    &&& account.data_len == keys.tick_array_len
    &&& account.key != keys.bitmap_extension
    &&& account.key != keys.arb_config
}

/// The tick arrays are those accounts that hold ticks, each once and in their order.
pub proof fn tick_arrays_are_in_order(keys: RouteKeys, accounts: Seq<RemainingAccount>, n: int)
    requires
        0 <= n <= accounts.len() <= usize::MAX,
    ensures
        ({
            let found = keys.tick_arrays(accounts, n);
            &&& forall|k: int|
                0 <= k < found.len() ==> (#[trigger] found[k]) < n && holds_ticks(
                    accounts[found[k] as int],
                    keys,
                )
            &&& forall|j: int, k: int|
                0 <= j < k < found.len() ==> #[trigger] found[j] < #[trigger] found[k]
            &&& forall|i: int|
                0 <= i < n && holds_ticks(#[trigger] accounts[i], keys) ==> found.contains(
                    i as usize,
                )
        }),
    decreases n,
{
    if n > 0 {
        tick_arrays_are_in_order(keys, accounts, n - 1);
        let before = keys.tick_arrays(accounts, n - 1);
        let found = keys.tick_arrays(accounts, n);
        assert forall|i: int| 0 <= i < n && holds_ticks(#[trigger] accounts[i], keys) implies
            found.contains(i as usize) by {
            if i < n - 1 {
                let k = choose|k: int| 0 <= k < before.len() && before[k] == i as usize;
                assert(found[k] == i as usize);
            } else {
                assert(found == before.push((n - 1) as usize));
                assert(found[before.len() as int] == i as usize);
            }
        }
    }
}

// Questions to the host.
/// The mints are asked for the fee on what the user received, and for that on what they paid,
/// unless they named the amount and all of it was swapped: then the fee from the start stands.
pub proof fn mints_are_asked_for_their_fees(
    ctx: &SwapSingleV2,
    request: SwapRequest,
    amount: u64,
    fee: u64,
    result: SwapInternalResult,
)
    ensures
        ({
            let paid_first = fee_sources(ctx, request, amount, fee, result, true);
            let paid_second = fee_sources(ctx, request, amount, fee, result, false);
            &&& paid_first.1 == FeeSource::Ask(
                FeeQuery::TransferFee { mint: ctx.output_vault_mint, amount: result.amount_1 },
            )
            &&& paid_second.0 == FeeSource::Ask(
                FeeQuery::TransferFee { mint: ctx.output_vault_mint, amount: result.amount_0 },
            )
            &&& request.is_base_input && result.amount_0 == amount ==> paid_first.0
                == FeeSource::Known(fee)
            &&& !(request.is_base_input && result.amount_0 == amount) ==> paid_first.0
                == FeeSource::Ask(
                FeeQuery::InverseFee { mint: ctx.input_vault_mint, amount: result.amount_0 },
            )
            &&& request.is_base_input && result.amount_1 == amount ==> paid_second.1
                == FeeSource::Known(fee)
            &&& !(request.is_base_input && result.amount_1 == amount) ==> paid_second.1
                == FeeSource::Ask(
                FeeQuery::InverseFee { mint: ctx.input_vault_mint, amount: result.amount_1 },
            )
        }),
{
}

/// A swap first asks the mint of the token that the user names for the fee on that amount: for what
/// it withholds of a payment, or for what has to be added to a receipt.
pub proof fn first_question_is_the_named_fee(ctx: &SwapSingleV2, setting: SwapSetting)
    ensures
        ({
            let named = setting.request.amount_specified;
            let asked = question_at(ctx, setting, SwapStage::Checked);
            &&& setting.request.is_base_input ==> asked == SwapQuestion::SpecifiedFee(
                FeeQuery::TransferFee { mint: ctx.input_vault_mint, amount: named },
            )
            &&& !setting.request.is_base_input ==> asked == SwapQuestion::SpecifiedFee(
                FeeQuery::InverseFee { mint: ctx.output_vault_mint, amount: named },
            )
        }),
{
}

/// The price that a swap is taxed by is that of the average tick over five seconds; a swap that
/// names what it receives needs none. The time is kept in 32 bits.
pub proof fn tax_question_is_the_short_average(ctx: &SwapSingleV2, setting: SwapSetting)
    ensures
        ({
            let now = (setting.block_timestamp as int % 0x1_0000_0000) as u32;
            match (setting.request.is_base_input, ctx.observation_state.twap(5, now)) {
                (true, Some(tick)) => tax_tick(ctx, setting) == Some(tick as i32),
                _ => tax_tick(ctx, setting) is None,
            }
        }),
{
}

/// The price that a swap is swept by is that of the average tick over the window of the pool's own
/// configuration, where that sweeps at all.
pub proof fn sweep_question_is_the_long_average(
    ctx: &SwapSingleV2,
    setting: SwapSetting,
    account: ArbAccount,
)
    ensures
        ({
            let now = (setting.block_timestamp as int % 0x1_0000_0000) as u32;
            let config = account.config->0;
            let ready = {
                &&& account.key == setting.keys.arb_config
                &&& account.owner == setting.program_id
                &&& account.config is Some
                &&& setting.slot is Some
                &&& config.enabled
                &&& setting.slot->0 >= config.last_sweep_slot + config.cooldown_slots
                &&& ctx.observation_state.observation_index >= 3
                &&& ctx.observation_state.twap(config.twap_window_seconds, now) is Some
            };
            &&& ready ==> sweep_tick(ctx, setting, Some(account)) == Some(
                ctx.observation_state.twap(config.twap_window_seconds, now)->0 as i32,
            )
            &&& !ready ==> sweep_tick(ctx, setting, Some(account)) is None
            &&& sweep_tick(ctx, setting, None) is None
        }),
{
}

} // verus!
