//! Ring of price observations, and the average tick over a window of time.
use vstd::prelude::*;

use crate::arith::low_i32;
#[allow(unused_imports)]
use crate::arith::{div_toward_zero, max_of, wrap_i32};

verus! {

/// Largest tick a price can have; the smallest is its negation.
pub const MAX_TICK: i32 = 443_636;

/// A cumulative tick at a point in time; a zero timestamp marks an unused entry.
#[derive(Clone, Copy, Debug, PartialEq, Eq, Structural)]
pub struct Observation {
    pub block_timestamp: u32,
    pub tick_cumulative: i64,
}

/// Observations of a pool, written round robin.
#[derive(Debug)]
pub struct ObservationState {
    /// Position at which the ring was last advanced
    pub observation_index: u16,
    pub observations: Vec<Observation>,
}

/// `tick` cut to the ticks that a price can have.
pub open spec fn clamp_tick(tick: int) -> int {
    if tick < -MAX_TICK {
        -MAX_TICK
    } else if tick > MAX_TICK {
        MAX_TICK as int
    } else {
        tick
    }
}

/// Seconds from `earlier` to `later`, zero where `earlier` is not earlier.
pub open spec fn seconds_since(later: u32, earlier: u32) -> int {
    max_of(later - earlier, 0)
}

/// `tick` cut to the ticks that a price can have.
pub fn clamped(tick: i32) -> (cut: i32)
    ensures
        cut == clamp_tick(tick as int),
{
    if tick < -MAX_TICK {
        -MAX_TICK
    } else if tick > MAX_TICK {
        MAX_TICK
    } else {
        tick
    }
}

impl ObservationState {
    /// A ring has entries, and its positions fit the index.
    pub open spec fn valid(&self) -> bool {
        0 < self.observations@.len() <= 0x1_0000
    }

    /// The entry before the current index.
    pub open spec fn latest(&self) -> Observation {
        self.observations@[max_of(self.observation_index - 1, 0) % self.observations@.len() as int]
    }

    /// Position reached after going back `steps` entries from the current index.
    pub open spec fn position_back(&self, steps: int) -> int {
        (self.observation_index + self.observations@.len() - steps)
            % self.observations@.len() as int
    }

    /// Whether the entry at `position` is in use and not after `target`.
    pub open spec fn is_at_or_before(&self, position: int, target: u32) -> bool {
        self.observations@[position].block_timestamp != 0
            && self.observations@[position].block_timestamp <= target
    }

    /// The first position, going back from the current index, that is not after `target`; the
    /// search starts `steps` entries back and goes once round the ring.
    pub open spec fn found_from(&self, target: u32, steps: int) -> Option<int>
        decreases self.observations@.len() - steps,
    {
        if steps >= self.observations@.len() {
            None
        } else if self.is_at_or_before(self.position_back(steps), target) {
            Some(self.position_back(steps))
        } else {
            self.found_from(target, steps + 1)
        }
    }

    /// The first position, going back from the current index, that is not after `target`.
    pub open spec fn found(&self, target: u32) -> Option<int> {
        self.found_from(target, 0)
    }

    /// Average tick from `older` to the latest observation.
    pub open spec fn average_tick(&self, older: Observation) -> int {
        clamp_tick(
            wrap_i32(
                div_toward_zero(
                    self.latest().tick_cumulative.wrapping_sub(older.tick_cumulative) as int,
                    seconds_since(self.latest().block_timestamp, older.block_timestamp),
                ),
            ),
        )
    }

    /// Whether the latest observation is in use, in the past, and there is one before it.
    pub open spec fn has_past(&self, now: u32) -> bool {
        &&& self.observation_index >= 2
        &&& self.latest().block_timestamp != 0
        &&& seconds_since(now, self.latest().block_timestamp) > 0
    }

    /// Time-weighted average tick over the window that ends at `now`; none where the ring holds
    /// too little, or nothing recent enough, or where twice the window is no 32-bit time.
    pub open spec fn twap(&self, window: u32, now: u32) -> Option<int> {
        if !self.has_past(now) || window * 2 > u32::MAX || seconds_since(
            now,
            self.latest().block_timestamp,
        ) > window * 2 {
            None
        } else {
            match self.found(max_of(now - window, 0) as u32) {
                None => None,
                Some(position) => {
                    let older = self.observations@[position];
                    if seconds_since(self.latest().block_timestamp, older.block_timestamp) == 0 {
                        None
                    } else {
                        Some(self.average_tick(older))
                    }
                },
            }
        }
    }

    /// The first position, going back from the current index, that is not after `target_timestamp`.
    pub fn find_observation_at_or_before(&self, target_timestamp: u32) -> (position: Option<usize>)
        requires
            self.valid(),
        ensures
            match position {
                Some(position) => self.found(target_timestamp) == Some(position as int)
                    && position < self.observations@.len(),
                None => self.found(target_timestamp) is None,
            },
    {
        let current: usize = self.observation_index as usize;
        let count: usize = self.observations.len();
        let mut i: usize = 0;
        while i < count
            invariant
                self.valid(),
                current == self.observation_index,
                count == self.observations@.len(),
                i <= count,
                self.found(target_timestamp) == self.found_from(target_timestamp, i as int),
            decreases count - i,
        {
            let position: usize = (current + count - i) % count;
            let timestamp: u32 = self.observations[position].block_timestamp;
            if timestamp != 0 && timestamp <= target_timestamp {
                return Some(position);
            }
            i = i + 1;
        }
        None
    }

    /// Time-weighted average tick over the window that ends at `current_timestamp`.
    pub fn observe_twap(&self, window_seconds: u32, current_timestamp: u32) -> (tick: Option<i32>)
        requires
            self.valid(),
        ensures
            match tick {
                Some(tick) => self.twap(window_seconds, current_timestamp) == Some(tick as int),
                None => self.twap(window_seconds, current_timestamp) is None,
            },
    {
        if self.observation_index < 2 {
            return None;
        }
        let last: usize = (self.observation_index as usize - 1) % self.observations.len();
        let latest = self.observations[last];
        if latest.block_timestamp == 0 {
            return None;
        }
        let elapsed: u32 = current_timestamp.saturating_sub(latest.block_timestamp);
        let horizon: u32 = match window_seconds.checked_mul(2) {
            Some(horizon) => horizon,
            None => {
                return None;
            },
        };
        if elapsed == 0 || elapsed > horizon {
            return None;
        }
        let target: u32 = current_timestamp.saturating_sub(window_seconds);
        let position: usize = match self.find_observation_at_or_before(target) {
            Some(position) => position,
            None => {
                return None;
            },
        };
        let older = self.observations[position];
        let delta: u32 = latest.block_timestamp.saturating_sub(older.block_timestamp);
        if delta == 0 {
            return None;
        }
        let span: i64 = delta as i64;
        let change: i64 = latest.tick_cumulative.wrapping_sub(older.tick_cumulative);
        let average: i64 = change / span;
        Some(clamped(low_i32(average)))
    }

    /// An average is a tick that a price can have.
    pub proof fn average_is_a_tick(&self, window: u32, now: u32)
        ensures
            self.twap(window, now) matches Some(tick) ==> -MAX_TICK <= tick <= MAX_TICK,
    {
    }

    /// Where the price stood at one tick from the older observation to the latest, that tick is the
    /// average.
    pub proof fn average_of_steady_price_is_its_tick(&self, older: Observation, tick: int)
        requires
            -MAX_TICK <= tick <= MAX_TICK,
            self.latest().block_timestamp > older.block_timestamp,
            self.latest().tick_cumulative - older.tick_cumulative == tick * seconds_since(
                self.latest().block_timestamp,
                older.block_timestamp,
            ),
        ensures
            self.average_tick(older) == tick,
    {
        let span = seconds_since(self.latest().block_timestamp, older.block_timestamp);
        let change = tick * span;
        assert(-0x7fff_ffff_ffff_ffff <= change <= 0x7fff_ffff_ffff_ffff && (change >= 0) == (tick
            >= 0)) by (nonlinear_arith)
            requires
                -443_636 <= tick <= 443_636,
                0 < span <= 0xffff_ffff,
                change == tick * span,
        ;
        assert(tick >= 0 ==> change / span == tick) by (nonlinear_arith)
            requires
                span > 0,
                change == tick * span,
        ;
        assert(tick < 0 ==> (-change) / span == -tick) by (nonlinear_arith)
            requires
                span > 0,
                change == tick * span,
        ;
    }

    /// What the search finds is in use, not after the target, and the first such entry going back
    /// from the current index; where it finds nothing, no entry qualifies.
    pub proof fn search_finds_first_going_back(&self, target: u32)
        requires
            self.valid(),
        ensures
            match self.found(target) {
                Some(position) => exists|steps: int|
                    0 <= steps < self.observations@.len() && position == #[trigger] self.position_back(
                        steps,
                    ) && self.is_at_or_before(position, target) && forall|newer: int|
                        0 <= newer < steps ==> !self.is_at_or_before(
                            #[trigger] self.position_back(newer),
                            target,
                        ),
                None => forall|position: int|
                    0 <= position < self.observations@.len() ==> !#[trigger] self.is_at_or_before(
                        position,
                        target,
                    ),
            },
    {
        self.search_is_first(target, 0);
        if self.found(target) is None {
            let n = self.observations@.len() as int;
            assert forall|position: int| 0 <= position < n implies !#[trigger] self.is_at_or_before(
                position,
                target,
            ) by {
                let steps = (self.observation_index + n - position) % n;
                assert(0 <= steps < n) by (nonlinear_arith)
                    requires
                        n > 0,
                        steps == (self.observation_index + n - position) % n,
                ;
                assert(self.position_back(steps) == position) by (nonlinear_arith)
                    requires
                        n > 0,
                        0 <= position < n,
                        steps == (self.observation_index + n - position) % n,
                        self.position_back(steps) == (self.observation_index + n - steps) % n,
                ;
            }
        }
    }

    /// The search goes back from the current index round the ring, and takes an entry that is in
    /// use and not after the target.
    pub proof fn search_walks_the_ring(&self, steps: int, position: int, target: u32)
        requires
            self.valid(),
            0 <= steps < self.observations@.len(),
            0 <= position < self.observations@.len(),
        ensures
            ({
                let n = self.observations@.len() as int;
                let index = self.observation_index as int % n;
                self.position_back(steps) == (if steps <= index {
                    index - steps
                } else {
                    index - steps + n
                })
            }),
            ({
                let time = self.observations@[position].block_timestamp;
                self.is_at_or_before(position, target) <==> 0 < time <= target
            }),
    {
        let n = self.observations@.len() as int;
        let index = self.observation_index as int % n;
        let round = self.observation_index as int / n;
        assert(self.observation_index as int == round * n + index && 0 <= index < n) by (
        nonlinear_arith)
            requires
                n > 0,
                index == self.observation_index as int % n,
                round == self.observation_index as int / n,
        ;
        let expected = if steps <= index {
            index - steps
        } else {
            index - steps + n
        };
        let turns = if steps <= index {
            round + 1
        } else {
            round
        };
        assert(self.observation_index + n - steps == turns * n + expected) by (nonlinear_arith)
            requires
                n > 0,
                self.observation_index as int == round * n + index,
                turns == round + 1 && expected == index - steps || turns == round && expected
                    == index - steps + n,
        ;
        assert((turns * n + expected) % n == expected) by (nonlinear_arith)
            requires
                n > 0,
                0 <= expected < n,
        ;
    }

    /// The latest observation stands one entry before the current index.
    pub proof fn latest_is_before_the_index(&self)
        requires
            self.valid(),
            self.observation_index >= 1,
        ensures
            ({
                let n = self.observations@.len() as int;
                let index = self.observation_index as int % n;
                self.latest() == self.observations@[if index == 0 {
                    n - 1
                } else {
                    index - 1
                }]
            }),
    {
        let n = self.observations@.len() as int;
        let index = self.observation_index as int % n;
        let round = self.observation_index as int / n;
        assert(self.observation_index as int == round * n + index && 0 <= index < n) by (
        nonlinear_arith)
            requires
                n > 0,
                index == self.observation_index as int % n,
                round == self.observation_index as int / n,
        ;
        if index == 0 {
            assert((self.observation_index - 1) % n == n - 1) by (nonlinear_arith)
                requires
                    n > 0,
                    self.observation_index as int == round * n,
            ;
        } else {
            assert((self.observation_index - 1) % n == index - 1) by (nonlinear_arith)
                requires
                    n > 0,
                    self.observation_index as int == round * n + index,
                    0 < index < n,
            ;
        }
    }

    /// There is an average exactly where two observations were made, the latest lies before now but
    /// no longer ago than twice the window, and an earlier one reaches back to the start of the
    /// window.
    pub proof fn average_needs_recent_observations(&self, window: u32, now: u32)
        ensures
            ({
                let latest = self.latest().block_timestamp;
                let start = if now >= window {
                    (now - window) as u32
                } else {
                    0u32
                };
                self.twap(window, now) is Some <==> {
                    &&& self.observation_index >= 2
                    &&& 0 < latest < now <= latest + 2 * window
                    &&& 2 * window <= u32::MAX
                    &&& self.found(start) is Some
                    &&& self.observations@[self.found(start)->0].block_timestamp < latest
                }
            }),
    {
    }

    /// The average is the change of the accumulated ticks per second between the observation that
    /// reaches back to the start of the window and the latest one, rounded toward zero, and cut to
    /// the ticks that a price can have.
    pub proof fn average_is_change_per_second(&self, window: u32, now: u32, older: Observation)
        requires
            self.twap(window, now) is Some,
            older == self.observations@[self.found(
                if now >= window {
                    (now - window) as u32
                } else {
                    0u32
                },
            )->0],
        ensures
            ({
                let tick = self.twap(window, now)->0;
                let span = self.latest().block_timestamp - older.block_timestamp;
                let change = self.latest().tick_cumulative - older.tick_cumulative;
                &&& 0 <= change < 443_636 * span ==> tick * span <= change < (tick + 1) * span
                &&& -443_636 * span < change <= 0 ==> (tick - 1) * span < change <= tick * span
                &&& 443_636 * span <= change < 0x8000_0000 * span && change <= i64::MAX ==> tick
                    == 443_636
                &&& -0x8000_0000 * span < change <= -443_636 * span && change >= i64::MIN ==> tick
                    == -443_636
            }),
    {
        let tick = self.twap(window, now)->0;
        let span = self.latest().block_timestamp - older.block_timestamp;
        let change = self.latest().tick_cumulative - older.tick_cumulative;
        let moved = self.latest().tick_cumulative.wrapping_sub(older.tick_cumulative) as int;
        assert(0 < span <= 0xffff_ffff);
        assert(443_636 * span < 0x8000_0000 * span && 0x8000_0000 * span
            <= 0x7fff_ffff_ffff_ffff);
        if i64::MIN <= change <= i64::MAX {
            assert(moved == change);
            let size = if change >= 0 {
                change
            } else {
                -change
            };
            let average = size / span;
            assert(average * span <= size < (average + 1) * span && average >= 0) by (
            nonlinear_arith)
                requires
                    average == size / span,
                    span > 0,
                    size >= 0,
            ;
            if size < 443_636 * span {
                assert(average < 443_636) by (nonlinear_arith)
                    requires
                        average * span <= size < 443_636 * span,
                        span > 0,
                ;
                assert((-average - 1) * span == -((average + 1) * span)) by (nonlinear_arith);
                assert((-average) * span == -(average * span)) by (nonlinear_arith);
            } else if size < 0x8000_0000 * span {
                assert(443_636 <= average < 0x8000_0000) by (nonlinear_arith)
                    requires
                        443_636 * span <= size < 0x8000_0000 * span,
                        average * span <= size < (average + 1) * span,
                        span > 0,
                ;
            }
        }
    }

    proof fn search_is_first(&self, target: u32, start: int)
        requires
            self.valid(),
            0 <= start <= self.observations@.len(),
            forall|newer: int|
                0 <= newer < start ==> !self.is_at_or_before(
                    #[trigger] self.position_back(newer),
                    target,
                ),
        ensures
            match self.found_from(target, start) {
                Some(position) => exists|steps: int|
                    0 <= steps < self.observations@.len() && position == #[trigger] self.position_back(
                        steps,
                    ) && self.is_at_or_before(position, target) && forall|newer: int|
                        0 <= newer < steps ==> !self.is_at_or_before(
                            #[trigger] self.position_back(newer),
                            target,
                        ),
                None => forall|steps: int|
                    0 <= steps < self.observations@.len() ==> !self.is_at_or_before(
                        #[trigger] self.position_back(steps),
                        target,
                    ),
            },
        decreases self.observations@.len() - start,
    {
        if start < self.observations@.len() {
            if !self.is_at_or_before(self.position_back(start), target) {
                self.search_is_first(target, start + 1);
            } else {
                assert(self.found_from(target, start) == Some(self.position_back(start)));
            }
        }
    }
}

} // verus!
