//! Circuit breaker of a perpetual market.
//!
//! Many liquidations at once push the price further and cause more liquidations. The breaker
//! watches the imbalance of open interest, the rate of liquidations and the velocity of the price;
//! any of them above its threshold arms it. The authority resets it, or it resets itself once its
//! cooldown is over and the metrics are back to normal.
use vstd::prelude::*;

use crate::arith::{distance_u128, mul_saturating};
#[allow(unused_imports)]
use crate::arith::{cap_u128, distance, min_of};
use crate::keys::Pubkey;

verus! {

/// First seed of the address of a breaker: `perp_shield`.
pub const PERP_SHIELD_SEED: [u8; 11] = [112, 101, 114, 112, 95, 115, 104, 105, 101, 108, 100];

/// First seed of the address of an alert: `cascade_alert`.
pub const CASCADE_ALERT_SEED: [u8; 13] = [
    99, 97, 115, 99, 97, 100, 101, 95, 97, 108, 101, 114, 116,
];

/// Default threshold of the open-interest imbalance, in basis points.
pub const CASCADE_OI_IMBALANCE_BPS: u16 = 7_000;

/// Default threshold of liquidations per epoch.
pub const CASCADE_LIQ_RATE_THRESHOLD: u16 = 50;

/// Default threshold of the price velocity, in basis points per slot.
pub const CASCADE_PRICE_VELOCITY_BPS: u16 = 500;

/// Cooldown in slots of a breaker without epochs.
pub const CIRCUIT_BREAKER_COOLDOWN_SLOTS: u64 = 1_800;

/// Length in slots of an epoch where none is configured.
pub const DEFAULT_EPOCH_SLOTS: u64 = 1_800;

/// What the breaker did last.
#[derive(Clone, Copy, Debug, PartialEq, Eq, Structural)]
pub enum ShieldAction {
    /// Nothing
    NoAction,
    /// Elevated risk was flagged, nothing was refused
    Flagged,
    /// The breaker was armed, opening positions is refused
    CircuitBreakerArmed,
    /// A liquidation went ahead
    LiquidationAllowed,
    /// A liquidation was deferred, the breaker is active
    LiquidationDeferred,
    /// The authority reset the breaker
    Reset,
    /// The breaker reset itself after its cooldown
    AutoReset,
}

impl ShieldAction {
    /// Number under which the action is stored.
    pub open spec fn number(self) -> u8 {
        match self {
            ShieldAction::NoAction => 0,
            ShieldAction::Flagged => 1,
            ShieldAction::CircuitBreakerArmed => 2,
            ShieldAction::LiquidationAllowed => 3,
            ShieldAction::LiquidationDeferred => 4,
            ShieldAction::Reset => 5,
            ShieldAction::AutoReset => 6,
        }
    }

    /// Number under which the action is stored.
    pub fn code(&self) -> (code: u8)
        ensures
            code == self.number(),
    {
        match self {
            ShieldAction::NoAction => 0,
            ShieldAction::Flagged => 1,
            ShieldAction::CircuitBreakerArmed => 2,
            ShieldAction::LiquidationAllowed => 3,
            ShieldAction::LiquidationDeferred => 4,
            ShieldAction::Reset => 5,
            ShieldAction::AutoReset => 6,
        }
    }
}

impl Default for ShieldAction {
    fn default() -> (action: ShieldAction)
        ensures
            action == ShieldAction::NoAction,
    {
        ShieldAction::NoAction
    }
}

/// Breaker of a market.
#[derive(Clone, Copy, Debug)]
pub struct PerpShield {
    /// Market the breaker belongs to
    pub market: Pubkey,
    /// Authority allowed to arm and reset the breaker
    pub authority: Pubkey,
    /// 1 where the breaker is active
    pub circuit_breaker_active: u8,
    /// Slot in which the breaker was last armed
    pub triggered_at_slot: u64,
    /// Slot in which the breaker was last reset
    pub reset_at_slot: u64,
    /// How often the breaker was armed
    pub trigger_count: u64,
    /// Number of the last action
    pub last_action: u8,
    /// Imbalance at the last check, in basis points
    pub last_oi_imbalance_bps: u16,
    /// Liquidations in the current epoch
    pub liquidations_this_epoch: u16,
    /// Slot in which the current epoch started
    pub epoch_start_slot: u64,
    /// Slots in an epoch
    pub epoch_slots: u64,
    /// Last mark price seen, in 64.64 fixed point
    pub last_mark_price_x64: u128,
    /// Slot in which it was seen
    pub last_price_slot: u64,
    /// Price velocity in basis points per slot
    pub price_velocity_bps: u16,
    /// Threshold of the imbalance; 0 stands for the default
    pub oi_imbalance_threshold_bps: u16,
    /// Threshold of liquidations per epoch; 0 stands for the default
    pub liq_rate_threshold: u16,
    /// Threshold of the velocity; 0 stands for the default
    pub price_velocity_threshold_bps: u16,
    /// 1 once the breaker is set up
    pub initialized: u8,
    /// Bump seed of the account address
    pub bump: u8,
    /// Reserved
    pub padding: [u8; 4],
}

impl PerpShield {
    /// Space of the account in bytes.
    pub const LEN: usize = 8 + 64 + 1 + 8 + 8 + 8 + 1 + 2 + 2 + 8 + 8 + 16 + 8 + 2 + 2 + 2 + 2 + 1
        + 1 + 4;

    /// Whether the breaker is active.
    pub open spec fn active(self) -> bool {
        self.circuit_breaker_active == 1
    }

    /// Cooldown after arming: three epochs.
    pub open spec fn cooldown(self) -> int {
        if self.epoch_slots > 0 {
            self.epoch_slots * 3
        } else {
            CIRCUIT_BREAKER_COOLDOWN_SLOTS as int
        }
    }

    /// Length of an epoch.
    pub open spec fn epoch_length(self) -> int {
        if self.epoch_slots > 0 {
            self.epoch_slots as int
        } else {
            DEFAULT_EPOCH_SLOTS as int
        }
    }

    pub open spec fn imbalance_limit(self) -> u16 {
        if self.oi_imbalance_threshold_bps == 0 {
            CASCADE_OI_IMBALANCE_BPS
        } else {
            self.oi_imbalance_threshold_bps
        }
    }

    pub open spec fn liquidation_limit(self) -> u16 {
        if self.liq_rate_threshold == 0 {
            CASCADE_LIQ_RATE_THRESHOLD
        } else {
            self.liq_rate_threshold
        }
    }

    pub open spec fn velocity_limit(self) -> u16 {
        if self.price_velocity_threshold_bps == 0 {
            CASCADE_PRICE_VELOCITY_BPS
        } else {
            self.price_velocity_threshold_bps
        }
    }

    /// Whether any metric has reached its threshold.
    pub open spec fn elevated(self, oi_imbalance_bps: u16) -> bool {
        ||| oi_imbalance_bps >= self.imbalance_limit()
        ||| self.liquidations_this_epoch >= self.liquidation_limit()
        ||| self.price_velocity_bps >= self.velocity_limit()
    }

    /// Which metrics have reached their thresholds, one bit each.
    pub open spec fn breaches(self, oi_imbalance_bps: u16) -> u8 {
        ((if oi_imbalance_bps >= self.imbalance_limit() {
            1int
        } else {
            0int
        }) + (if self.liquidations_this_epoch >= self.liquidation_limit() {
            2int
        } else {
            0int
        }) + (if self.price_velocity_bps >= self.velocity_limit() {
            4int
        } else {
            0int
        })) as u8
    }

    /// The breaker with a new epoch started at `slot`.
    pub open spec fn epoch_started(self, slot: u64) -> PerpShield {
        PerpShield { epoch_start_slot: slot, liquidations_this_epoch: 0, ..self }
    }

    /// The breaker after a liquidation at `slot`.
    pub open spec fn liquidation_counted(self, slot: u64) -> PerpShield {
        let current = if slot >= self.epoch_start_slot + self.epoch_length() {
            self.epoch_started(slot)
        } else {
            self
        };
        PerpShield {
            liquidations_this_epoch: current.liquidations_this_epoch.saturating_add(1),
            ..current
        }
    }

    /// Whether a price was seen before.
    pub open spec fn has_price(self) -> bool {
        self.last_price_slot != 0 && self.last_mark_price_x64 != 0
    }

    /// Velocity from the last price to `price` at `slot`, in basis points per slot.
    pub open spec fn velocity_to(self, price: u128, slot: u64) -> int {
        min_of(
            cap_u128(distance(price as int, self.last_mark_price_x64 as int) * 10_000)
                / self.last_mark_price_x64 as int / (slot - self.last_price_slot),
            u16::MAX as int,
        )
    }

    /// The breaker after `price` was seen at `slot`.
    pub open spec fn price_seen(self, price: u128, slot: u64) -> PerpShield {
        if !self.has_price() {
            PerpShield {
                last_mark_price_x64: price,
                last_price_slot: slot,
                price_velocity_bps: 0,
                ..self
            }
        } else if slot <= self.last_price_slot {
            self
        } else {
            PerpShield {
                last_mark_price_x64: price,
                last_price_slot: slot,
                price_velocity_bps: self.velocity_to(price, slot) as u16,
                ..self
            }
        }
    }

    /// Is the breaker active?
    pub fn is_breaker_active(&self) -> (active: bool)
        ensures
            active == self.active(),
    {
        self.circuit_breaker_active == 1
    }

    /// Is the cooldown over?
    pub fn cooldown_elapsed(&self, current_slot: u64) -> (elapsed: bool)
        requires
            self.triggered_at_slot + self.cooldown() <= u64::MAX,
        ensures
            elapsed == (current_slot >= self.triggered_at_slot + self.cooldown()),
    {
        let cooldown: u64 = if self.epoch_slots > 0 {
            self.epoch_slots * 3
        } else {
            CIRCUIT_BREAKER_COOLDOWN_SLOTS
        };
        current_slot >= self.triggered_at_slot + cooldown
    }

    /// Threshold of the imbalance in force.
    pub fn oi_threshold(&self) -> (threshold: u16)
        ensures
            threshold == self.imbalance_limit(),
    {
        if self.oi_imbalance_threshold_bps == 0 {
            CASCADE_OI_IMBALANCE_BPS
        } else {
            self.oi_imbalance_threshold_bps
        }
    }

    /// Threshold of liquidations per epoch in force.
    pub fn liq_threshold(&self) -> (threshold: u16)
        ensures
            threshold == self.liquidation_limit(),
    {
        if self.liq_rate_threshold == 0 {
            CASCADE_LIQ_RATE_THRESHOLD
        } else {
            self.liq_rate_threshold
        }
    }

    /// Threshold of the velocity in force.
    pub fn velocity_threshold(&self) -> (threshold: u16)
        ensures
            threshold == self.velocity_limit(),
    {
        if self.price_velocity_threshold_bps == 0 {
            CASCADE_PRICE_VELOCITY_BPS
        } else {
            self.price_velocity_threshold_bps
        }
    }

    /// Starts a new epoch.
    pub fn reset_epoch(&mut self, current_slot: u64)
        ensures
            *final(self) == old(self).epoch_started(current_slot),
    {
        self.epoch_start_slot = current_slot;
        self.liquidations_this_epoch = 0;
    }

    /// Counts a liquidation, in a new epoch where the current one is over.
    pub fn record_liquidation(&mut self, current_slot: u64)
        requires
            old(self).epoch_start_slot + old(self).epoch_length() <= u64::MAX,
        ensures
            *final(self) == old(self).liquidation_counted(current_slot),
    {
        let epoch_len: u64 = if self.epoch_slots > 0 {
            self.epoch_slots
        } else {
            DEFAULT_EPOCH_SLOTS
        };
        if current_slot >= self.epoch_start_slot + epoch_len {
            self.reset_epoch(current_slot);
        }
        self.liquidations_this_epoch = self.liquidations_this_epoch.saturating_add(1);
    }

    /// Takes a new mark price into account.
    pub fn update_price_velocity(&mut self, new_price_x64: u128, current_slot: u64)
        ensures
            *final(self) == old(self).price_seen(new_price_x64, current_slot),
    {
        if self.last_price_slot == 0 || self.last_mark_price_x64 == 0 {
            self.last_mark_price_x64 = new_price_x64;
            self.last_price_slot = current_slot;
            self.price_velocity_bps = 0;
            return;
        }
        let slots_elapsed: u64 = current_slot.saturating_sub(self.last_price_slot);
        if slots_elapsed == 0 {
            return;
        }
        let previous: u128 = self.last_mark_price_x64;
        let change: u128 = mul_saturating(distance_u128(new_price_x64, previous), 10_000);
        let velocity: u128 = change / previous / (slots_elapsed as u128);
        self.price_velocity_bps =
        if velocity < u16::MAX as u128 {
            velocity as u16
        } else {
            u16::MAX
        };
        self.last_mark_price_x64 = new_price_x64;
        self.last_price_slot = current_slot;
    }

    /// Has any metric reached its threshold?
    pub fn should_trip(&self, oi_imbalance_bps: u16) -> (trip: bool)
        ensures
            trip == self.elevated(oi_imbalance_bps),
    {
        if oi_imbalance_bps >= self.oi_threshold() {
            return true;
        }
        if self.liquidations_this_epoch >= self.liq_threshold() {
            return true;
        }
        if self.price_velocity_bps >= self.velocity_threshold() {
            return true;
        }
        false
    }

    /// Which metrics have reached their thresholds, one bit each.
    pub fn breach_flags(&self, oi_imbalance_bps: u16) -> (flags: u8)
        ensures
            flags == self.breaches(oi_imbalance_bps),
    {
        let mut flags: u8 = 0;
        if oi_imbalance_bps >= self.oi_threshold() {
            flags = flags | CascadeAlert::FLAG_OI;
        }
        if self.liquidations_this_epoch >= self.liq_threshold() {
            flags = flags | CascadeAlert::FLAG_LIQ_RATE;
        }
        if self.price_velocity_bps >= self.velocity_threshold() {
            flags = flags | CascadeAlert::FLAG_VELOCITY;
        }
        proof {
            assert(0u8 | 1 == 1 && 0u8 | 2 == 2 && 1u8 | 2 == 3 && 0u8 | 4 == 4 && 1u8 | 4 == 5
                && 2u8 | 4 == 6 && 3u8 | 4 == 7) by (bit_vector);
        }
        flags
    }

    /// The breaker trips exactly where some flag is set, and each flag has its own bit.
    pub proof fn flags_tell_why_it_trips(self, oi_imbalance_bps: u16)
        ensures
            self.elevated(oi_imbalance_bps) <==> self.breaches(oi_imbalance_bps) != 0,
            self.breaches(oi_imbalance_bps) % 2 == 1 <==> oi_imbalance_bps
                >= self.imbalance_limit(),
            self.breaches(oi_imbalance_bps) / 2 % 2 == 1 <==> self.liquidations_this_epoch
                >= self.liquidation_limit(),
            self.breaches(oi_imbalance_bps) / 4 % 2 == 1 <==> self.price_velocity_bps
                >= self.velocity_limit(),
            self.breaches(oi_imbalance_bps) <= 7,
    {
    }

    /// A price that does not move has no velocity.
    pub proof fn steady_price_has_no_velocity(self, slot: u64)
        requires
            self.has_price(),
            slot > self.last_price_slot,
        ensures
            self.price_seen(self.last_mark_price_x64, slot).price_velocity_bps == 0,
    {
        let elapsed = slot - self.last_price_slot;
        let price = self.last_mark_price_x64 as int;
        assert(0int / price / elapsed == 0) by (nonlinear_arith)
            requires
                price > 0,
                elapsed > 0,
        ;
    }

    /// A liquidation within the epoch adds one, up to the largest count; the first one after its
    /// end starts over at one.
    pub proof fn liquidations_count_per_epoch(self, slot: u64)
        ensures
            slot >= self.epoch_start_slot + self.epoch_length() ==> self.liquidation_counted(
                slot,
            ).liquidations_this_epoch == 1 && self.liquidation_counted(slot).epoch_start_slot
                == slot,
            slot < self.epoch_start_slot + self.epoch_length() && self.liquidations_this_epoch
                < u16::MAX ==> self.liquidation_counted(slot).liquidations_this_epoch
                == self.liquidations_this_epoch + 1 && self.liquidation_counted(
                slot,
            ).epoch_start_slot == self.epoch_start_slot,
    {
    }
}

impl Default for PerpShield {
    fn default() -> (shield: PerpShield)
        ensures
            shield.market.is_zero(),
            shield.authority.is_zero(),
            shield == (PerpShield {
                market: shield.market,
                authority: shield.authority,
                circuit_breaker_active: 0,
                triggered_at_slot: 0,
                reset_at_slot: 0,
                trigger_count: 0,
                last_action: 0,
                last_oi_imbalance_bps: 0,
                liquidations_this_epoch: 0,
                epoch_start_slot: 0,
                epoch_slots: 0,
                last_mark_price_x64: 0,
                last_price_slot: 0,
                price_velocity_bps: 0,
                oi_imbalance_threshold_bps: 0,
                liq_rate_threshold: 0,
                price_velocity_threshold_bps: 0,
                initialized: 0,
                bump: 0,
                padding: [0, 0, 0, 0],
            }),
    {
        PerpShield {
            market: Pubkey::default(),
            authority: Pubkey::default(),
            circuit_breaker_active: 0,
            triggered_at_slot: 0,
            reset_at_slot: 0,
            trigger_count: 0,
            last_action: 0,
            last_oi_imbalance_bps: 0,
            liquidations_this_epoch: 0,
            epoch_start_slot: 0,
            epoch_slots: 0,
            last_mark_price_x64: 0,
            last_price_slot: 0,
            price_velocity_bps: 0,
            oi_imbalance_threshold_bps: 0,
            liq_rate_threshold: 0,
            price_velocity_threshold_bps: 0,
            initialized: 0,
            bump: 0,
            padding: [0, 0, 0, 0],
        }
    }
}

/// Record of one arming of a breaker.
#[derive(Clone, Copy, Debug)]
pub struct CascadeAlert {
    /// Breaker that was armed
    pub shield: Pubkey,
    /// Market of the breaker
    pub market: Pubkey,
    /// Number of the arming
    pub alert_index: u64,
    /// Slot of the arming
    pub triggered_at_slot: u64,
    /// Slot of the reset; 0 while active
    pub reset_at_slot: u64,
    /// Imbalance at the arming, in basis points
    pub oi_imbalance_bps: u16,
    /// Liquidations in the epoch of the arming
    pub liquidations_in_epoch: u16,
    /// Velocity at the arming, in basis points per slot
    pub price_velocity_bps: u16,
    /// Thresholds reached, one bit each
    pub trigger_flags: u8,
    /// 1 where the authority resolved the alert, 2 where it resolved itself
    pub resolution: u8,
    /// Bump seed of the account address
    pub bump: u8,
    /// Reserved
    pub padding: [u8; 5],
}

impl CascadeAlert {
    /// Space of the account in bytes.
    pub const LEN: usize = 8 + 32 + 32 + 8 + 8 + 8 + 2 + 2 + 2 + 1 + 1 + 1 + 5;

    /// Flag of the imbalance.
    pub const FLAG_OI: u8 = 0x01;

    /// Flag of the liquidation rate.
    pub const FLAG_LIQ_RATE: u8 = 0x02;

    /// Flag of the velocity.
    pub const FLAG_VELOCITY: u8 = 0x04;

    pub fn is_resolved(&self) -> (resolved: bool)
        ensures
            resolved == (self.reset_at_slot > 0),
    {
        self.reset_at_slot > 0
    }
}

impl Default for CascadeAlert {
    fn default() -> (alert: CascadeAlert)
        ensures
            alert.shield.is_zero(),
            alert.market.is_zero(),
            alert == (CascadeAlert {
                shield: alert.shield,
                market: alert.market,
                alert_index: 0,
                triggered_at_slot: 0,
                reset_at_slot: 0,
                oi_imbalance_bps: 0,
                liquidations_in_epoch: 0,
                price_velocity_bps: 0,
                trigger_flags: 0,
                resolution: 0,
                bump: 0,
                padding: [0, 0, 0, 0, 0],
            }),
    {
        CascadeAlert {
            shield: Pubkey::default(),
            market: Pubkey::default(),
            alert_index: 0,
            triggered_at_slot: 0,
            reset_at_slot: 0,
            oi_imbalance_bps: 0,
            liquidations_in_epoch: 0,
            price_velocity_bps: 0,
            trigger_flags: 0,
            resolution: 0,
            bump: 0,
            padding: [0, 0, 0, 0, 0],
        }
    }
}

/// A breaker was set up.
#[derive(Clone, Copy, Debug)]
pub struct PerpShieldInitializedEvent {
    pub market: Pubkey,
    pub shield: Pubkey,
    pub authority: Pubkey,
    pub slot: u64,
}

/// A breaker was armed.
#[derive(Clone, Copy, Debug)]
pub struct CircuitBreakerTriggeredEvent {
    pub market: Pubkey,
    pub shield: Pubkey,
    pub trigger_count: u64,
    pub oi_imbalance_bps: u16,
    pub liquidations_in_epoch: u16,
    pub price_velocity_bps: u16,
    pub trigger_flags: u8,
    pub slot: u64,
}

/// A breaker was reset.
#[derive(Clone, Copy, Debug)]
pub struct CircuitBreakerResetEvent {
    pub market: Pubkey,
    pub shield: Pubkey,
    pub trigger_count: u64,
    pub by_authority: bool,
    pub slot: u64,
}

/// A liquidation was allowed or deferred.
#[derive(Clone, Copy, Debug)]
pub struct LiquidationGuardEvent {
    pub market: Pubkey,
    pub owner: Pubkey,
    pub action: u8,
    pub oi_imbalance_bps: u16,
    pub liquidations_in_epoch: u16,
    pub slot: u64,
}

} // verus!
