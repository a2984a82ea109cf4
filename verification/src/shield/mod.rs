//! The standalone shield program: sweeps to the treasury and liquidity locks for any pool.
use vstd::prelude::*;

#[allow(unused_imports)]
use crate::amm::states::oracle::ObservationState;
#[allow(unused_imports)]
use crate::arith::{lemma_share_in_range, share_of};
use crate::keys::Pubkey;
#[allow(unused_imports)]
use crate::keys::TIPY_WALLET;
use crate::shield::error::ShieldError;
use crate::shield::instructions::arb_sweep::{ArbSweepExecuted, ExecuteArbSweep, PriceReference};
#[allow(unused_imports)]
use crate::shield::instructions::arb_sweep::{
    account_error, config_after_sweep, reference, spread_of, sweep_counted, sweep_error,
    sweep_outcome, treasury_amount,
};
use crate::shield::instructions::check_jit::{
    CheckJitProtection, InitJitGuard, JitVerdict, RecordJitAdd,
};
#[allow(unused_imports)]
use crate::shield::instructions::check_jit::{checked, guard_outcome, is_blocked, verdict};
use crate::shield::instructions::initialize_shield::{
    InitializeShield, ShieldInitConfig, ShieldInitialized,
};
#[allow(unused_imports)]
use crate::shield::instructions::initialize_shield::{
    fresh_config, init_error, init_outcome, pool_counted,
};
use crate::shield::instructions::update_config::{
    ShieldConfigUpdate, ShieldConfigUpdated, UpdateShieldConfig,
};
#[allow(unused_imports)]
use crate::shield::instructions::update_config::{update_error, update_outcome, updated};
use crate::shield::state::{GlobalShieldState, JitGuardState, ShieldConfig};

pub mod error;
pub mod instructions;
pub mod laws;
pub mod state;

verus! {

/// Accounts of [`initialize_global`].
#[derive(Clone, Copy, Debug)]
pub struct InitializeGlobal {
    pub admin: Pubkey,
    /// Bump seed of the new account
    pub global_shield_bump: u8,
}

/// Accounts of [`get_shield_status`].
#[derive(Clone, Copy, Debug)]
pub struct GetShieldStatus {
    pub shield_config: ShieldConfig,
    pub global_shield: GlobalShieldState,
}

/// State of the shield of a pool.
#[derive(Clone, Copy, Debug)]
pub struct ShieldStatusEvent {
    pub pool: Pubkey,
    pub enabled: bool,
    pub min_spread_bps: u16,
    pub cooldown_slots: u64,
    pub last_sweep_slot: u64,
    pub total_profit_a: u64,
    pub total_profit_b: u64,
    pub pools_protected: u64,
    pub total_jit_blocks: u64,
    pub total_arb_sweeps: u64,
}

/// Sets up the program, once. Whoever does becomes its admin.
pub fn initialize_global(ctx: &InitializeGlobal) -> (global: GlobalShieldState)
    ensures
        global == (GlobalShieldState {
            admin: ctx.admin,
            pools_protected: 0,
            total_jit_blocks: 0,
            total_arb_sweeps: 0,
            total_treasury_routed: 0,
            bump: ctx.global_shield_bump,
        }),
{
    GlobalShieldState {
        admin: ctx.admin,
        pools_protected: 0,
        total_jit_blocks: 0,
        total_arb_sweeps: 0,
        total_treasury_routed: 0,
        bump: ctx.global_shield_bump,
    }
}

/// Sets up the shield of a pool.
pub fn initialize_shield(ctx: &mut InitializeShield, config: ShieldInitConfig) -> (outcome: Result<
    (ShieldConfig, ShieldInitialized),
    ShieldError,
>)
    ensures
        outcome == init_outcome(*old(ctx), config),
        *final(ctx) == (if outcome is Ok {
            InitializeShield { global_shield: pool_counted(old(ctx).global_shield), ..*old(ctx) }
        } else {
            *old(ctx)
        }),
{
    instructions::initialize_shield::handler(ctx, config)
}

/// Sets up the lock of a position.
pub fn init_jit_guard(ctx: &InitJitGuard, min_lock_slots: u16, slot: u64) -> (outcome: Result<
    JitGuardState,
    ShieldError,
>)
    ensures
        outcome == guard_outcome(*ctx, min_lock_slots, slot),
{
    instructions::check_jit::handler_init_guard(ctx, min_lock_slots, slot)
}

/// Checks a removal of liquidity: it is refused while the lock holds.
pub fn check_jit_protection(
    ctx: &mut CheckJitProtection,
    swap_amount: u64,
    min_amount_out: u64,
    current_slot: u64,
) -> (said: JitVerdict)
    requires
        old(ctx).jit_guard.unlock_slot() <= u64::MAX,
    ensures
        said == verdict(old(ctx).jit_guard, current_slot),
        *final(ctx) == checked(*old(ctx), current_slot),
{
    instructions::check_jit::handler_check_jit(ctx, swap_amount, min_amount_out, current_slot)
}

/// Records that liquidity was added: the lock starts anew.
pub fn record_jit_add(ctx: &mut RecordJitAdd, slot: u64)
    ensures
        *final(ctx) == (RecordJitAdd { jit_guard: old(ctx).jit_guard.added(slot), ..*old(ctx) }),
{
    instructions::check_jit::handler_record_add(ctx, slot)
}

/// Sweeps the treasury share of `sweep_amount`.
pub fn execute_arb_sweep(
    ctx: &mut ExecuteArbSweep,
    sweep_amount: u64,
    reference: PriceReference,
    current_slot: u64,
) -> (outcome: Result<ArbSweepExecuted, ShieldError>)
    requires
        account_error(*old(ctx)) is None ==> old(ctx).shield_config.next_sweep_slot() <= u64::MAX,
    ensures
        outcome == sweep_outcome(*old(ctx), sweep_amount, reference, current_slot),
        *final(ctx) == (match outcome {
            Ok(event) => ExecuteArbSweep {
                shield_config: config_after_sweep(
                    old(ctx).shield_config,
                    event.treasury_amount,
                    current_slot,
                ),
                global_shield: sweep_counted(old(ctx).global_shield, event.treasury_amount),
                ..*old(ctx)
            },
            Err(_) => *old(ctx),
        }),
{
    instructions::arb_sweep::handler(ctx, sweep_amount, reference, current_slot)
}

/// Changes the shield configuration of a pool.
pub fn update_shield_config(
    ctx: &mut UpdateShieldConfig,
    new_config: ShieldConfigUpdate,
) -> (outcome:
    Result<ShieldConfigUpdated, ShieldError>)
    ensures
        outcome == update_outcome(*old(ctx), new_config),
        *final(ctx) == (if outcome is Ok {
            UpdateShieldConfig {
                shield_config: updated(old(ctx).shield_config, new_config),
                ..*old(ctx)
            }
        } else {
            *old(ctx)
        }),
{
    instructions::update_config::handler(ctx, new_config)
}

/// Tells the state of the shield of a pool, and as a byte whether it is on.
pub fn get_shield_status(ctx: &GetShieldStatus) -> (status: (ShieldStatusEvent, u8))
    ensures
        status.0 == (ShieldStatusEvent {
            pool: ctx.shield_config.pool,
            enabled: ctx.shield_config.enabled,
            min_spread_bps: ctx.shield_config.min_spread_bps,
            cooldown_slots: ctx.shield_config.cooldown_slots,
            last_sweep_slot: ctx.shield_config.last_sweep_slot,
            total_profit_a: ctx.shield_config.total_profit_captured_a,
            total_profit_b: ctx.shield_config.total_profit_captured_b,
            pools_protected: ctx.global_shield.pools_protected,
            total_jit_blocks: ctx.global_shield.total_jit_blocks,
            total_arb_sweeps: ctx.global_shield.total_arb_sweeps,
        }),
        status.1 == (if ctx.shield_config.enabled {
            1u8
        } else {
            0u8
        }),
{
    let shield = &ctx.shield_config;
    let global = &ctx.global_shield;
    let event = ShieldStatusEvent {
        pool: shield.pool,
        enabled: shield.enabled,
        min_spread_bps: shield.min_spread_bps,
        cooldown_slots: shield.cooldown_slots,
        last_sweep_slot: shield.last_sweep_slot,
        total_profit_a: shield.total_profit_captured_a,
        total_profit_b: shield.total_profit_captured_b,
        pools_protected: global.pools_protected,
        total_jit_blocks: global.total_jit_blocks,
        total_arb_sweeps: global.total_arb_sweeps,
    };
    let flag: u8 = if shield.enabled {
        1
    } else {
        0
    };
    (event, flag)
}

// Laws.
/// A shield starts valid and on, and its treasury is the fixed one.
pub proof fn fresh_shield_is_valid(ctx: InitializeShield, config: ShieldInitConfig)
    requires
        init_error(ctx, config) is None,
    ensures
        fresh_config(ctx, config).valid(),
        fresh_config(ctx, config).enabled,
        1 <= fresh_config(ctx, config).min_jit_lock_slots <= JitGuardState::MAX_LOCK_SLOTS,
{
}

/// Updates and sweeps keep a configuration valid, and never change its pool, its authority or its
/// treasury.
pub proof fn operations_keep_config_valid(
    ctx: UpdateShieldConfig,
    update: ShieldConfigUpdate,
    amount: u64,
    slot: u64,
)
    requires
        ctx.shield_config.valid(),
        update_error(ctx, update) is None,
    ensures
        forall|after: ShieldConfig|
            #![trigger after.valid()]
            after == updated(ctx.shield_config, update) || after == config_after_sweep(
                ctx.shield_config,
                amount,
                slot,
            ) ==> {
                &&& after.valid()
                &&& after.pool == ctx.shield_config.pool
                &&& after.arb_authority == ctx.shield_config.arb_authority
                &&& after.treasury == ctx.shield_config.treasury
                &&& after.bump == ctx.shield_config.bump
            },
{
}

/// An update without new values changes nothing.
pub proof fn empty_update_changes_nothing(config: ShieldConfig)
    ensures
        updated(
            config,
            (ShieldConfigUpdate {
                min_spread_bps: None,
                treasury_share_bps: None,
                twap_window_seconds: None,
                min_sweep_amount: None,
                max_sweep_amount: None,
                cooldown_slots: None,
                manipulation_threshold_bps: None,
                min_jit_lock_slots: None,
                enabled: None,
            }),
        ) == config,
{
}

/// The same update twice is the same as once.
pub proof fn repeated_update_changes_nothing(config: ShieldConfig, update: ShieldConfigUpdate)
    ensures
        updated(updated(config, update), update) == updated(config, update),
{
}

/// Nobody but the authority of a pool sweeps it or changes its configuration, and nobody but the
/// admin sets up a shield.
pub proof fn strangers_are_refused(
    update: UpdateShieldConfig,
    values: ShieldConfigUpdate,
    sweep: ExecuteArbSweep,
    sweep_amount: u64,
    reference: PriceReference,
    slot: u64,
    init: InitializeShield,
    config: ShieldInitConfig,
)
    ensures
        update.arb_authority != update.shield_config.arb_authority ==> update_error(
            update,
            values,
        ) == Some(ShieldError::NotArbAuthority),
        sweep.arb_authority != sweep.shield_config.arb_authority ==> sweep_error(
            sweep,
            sweep_amount,
            reference,
            slot,
        ) == Some(ShieldError::NotArbAuthority),
        init.admin != init.global_shield.admin ==> init_error(init, config) == Some(
            ShieldError::NotAdmin,
        ),
{
}

/// A sweep routes to the treasury something, never more than was swept, and never anything to
/// another account.
pub proof fn sweep_pays_treasury_only(
    ctx: ExecuteArbSweep,
    sweep_amount: u64,
    reference: PriceReference,
    slot: u64,
)
    requires
        ctx.shield_config.valid(),
        sweep_outcome(ctx, sweep_amount, reference, slot) is Ok,
    ensures
        ({
            let event = sweep_outcome(ctx, sweep_amount, reference, slot)->Ok_0;
            &&& 0 < event.treasury_amount <= sweep_amount
            &&& event.treasury_amount == share_of(
                sweep_amount as int,
                ctx.shield_config.treasury_share_bps as int,
            )
            &&& ctx.treasury_vault.bytes@ == TIPY_WALLET@
            &&& ctx.shield_config.min_sweep_amount <= sweep_amount
                <= ctx.shield_config.max_sweep_amount
        }),
{
    lemma_share_in_range(sweep_amount as int, ctx.shield_config.treasury_share_bps as int);
}

/// A sweep only happens where the price was at least the configured spread away from its average.
pub proof fn sweeps_need_their_spread(
    ctx: ExecuteArbSweep,
    sweep_amount: u64,
    reference: PriceReference,
    slot: u64,
)
    requires
        sweep_outcome(ctx, sweep_amount, reference, slot) is Ok,
    ensures
        spread_of(reference.spot, reference.twap) >= ctx.shield_config.min_spread_bps,
{
}

/// Where a sweep has an average to be held against, its accounts are in order and its cooldown is
/// over, so that only the spread and the amount can still refuse it.
pub proof fn reference_admits_the_sweep(
    ctx: ExecuteArbSweep,
    oracle: ObservationState,
    sweep_amount: u64,
    prices: PriceReference,
    slot: u64,
    now: u32,
)
    requires
        reference(ctx, oracle, slot, now) is Ok,
    ensures
        match sweep_error(ctx, sweep_amount, prices, slot) {
            Some(error) => error == ShieldError::SpreadTooSmall || error
                == ShieldError::AmountBelowMin || error == ShieldError::NoArbProfit,
            None => true,
        },
{
}

/// After a sweep the next one waits for the cooldown.
pub proof fn sweeps_keep_their_distance(
    ctx: ExecuteArbSweep,
    before: ShieldConfig,
    amount: u64,
    first: u64,
    sweep_amount: u64,
    reference: PriceReference,
    second: u64,
)
    requires
        ctx.shield_config == config_after_sweep(before, amount, first),
        sweep_outcome(ctx, sweep_amount, reference, second) is Ok,
    ensures
        second >= first + before.cooldown_slots,
{
}

/// A pool whose shield is off is neither swept, nor are new locks set up for it.
pub proof fn disabled_shield_does_nothing(
    sweep: ExecuteArbSweep,
    sweep_amount: u64,
    reference: PriceReference,
    guard: InitJitGuard,
    min_lock_slots: u16,
    slot: u64,
)
    ensures
        !sweep.shield_config.enabled ==> sweep_outcome(sweep, sweep_amount, reference, slot) is Err,
        !guard.shield_config.enabled ==> guard_outcome(guard, min_lock_slots, slot) is Err,
{
}

/// A lock that is set up under a valid configuration is valid, and holds from the slot of its
/// set-up.
pub proof fn fresh_guard_is_valid(ctx: InitJitGuard, min_lock_slots: u16, slot: u64)
    requires
        ctx.shield_config.valid(),
        guard_outcome(ctx, min_lock_slots, slot) is Ok,
    ensures
        ({
            let guard = guard_outcome(ctx, min_lock_slots, slot)->Ok_0;
            &&& guard.valid()
            &&& slot <= guard.unlock_slot() <= slot + JitGuardState::MAX_LOCK_SLOTS
            &&& min_lock_slots > 0 ==> is_blocked(guard, slot)
        }),
{
}

/// A removal is refused exactly within the lock after the last addition, whatever was removed
/// before, and a refusal is counted once for the position and once for the program.
pub proof fn removal_is_refused_within_lock(ctx: CheckJitProtection, added: u64, slot: u64)
    requires
        ctx.jit_guard.last_add_slot == added,
    ensures
        verdict(ctx.jit_guard, slot).outcome is Err <==> slot < added
            + ctx.jit_guard.min_lock_slots,
        verdict(ctx.jit_guard, slot).return_data == 1 <==> verdict(
            ctx.jit_guard,
            slot,
        ).outcome is Ok,
        is_blocked(checked(ctx, slot).jit_guard, slot) == is_blocked(ctx.jit_guard, slot),
        is_blocked(ctx.jit_guard, slot) && ctx.jit_guard.jit_blocks < u64::MAX
            && ctx.global_shield.total_jit_blocks < u64::MAX ==> {
            &&& checked(ctx, slot).jit_guard.jit_blocks == ctx.jit_guard.jit_blocks + 1
            &&& checked(ctx, slot).global_shield.total_jit_blocks
                == ctx.global_shield.total_jit_blocks + 1
        },
        !is_blocked(ctx.jit_guard, slot) ==> checked(ctx, slot).global_shield == ctx.global_shield,
{
}

} // verus!
