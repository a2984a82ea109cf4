//! The part of a market account that committed positions read or write.
use vstd::prelude::*;

verus! {

#[derive(Clone, Copy, Debug)]
pub struct PerpMarket {
    /// Whether positions can only shrink
    pub reduce_only: bool,
    /// Users of the market
    pub number_of_users: u32,
    /// Users of the market that hold a position
    pub number_of_users_with_base: u32,
    /// Last price of the oracle
    pub last_oracle_price: i64,
    /// Largest amount that the insurance fund pays
    pub quote_max_insurance: u64,
}

impl PerpMarket {
    /// The market with one more position.
    pub open spec fn user_joined(self) -> PerpMarket {
        PerpMarket {
            number_of_users: self.number_of_users.saturating_add(1),
            number_of_users_with_base: self.number_of_users_with_base.saturating_add(1),
            ..self
        }
    }

    /// The market with one position less.
    pub open spec fn user_left(self) -> PerpMarket {
        PerpMarket {
            number_of_users: self.number_of_users.saturating_sub(1),
            number_of_users_with_base: self.number_of_users_with_base.saturating_sub(1),
            ..self
        }
    }

    /// Whether the oracle price is at or below `price`.
    pub fn is_at_or_below(&self, price: u128) -> (below: bool)
        ensures
            below == (self.last_oracle_price <= price),
    {
        self.last_oracle_price < 0 || self.last_oracle_price as u128 <= price
    }

    /// Whether the oracle price is at or above `price`.
    pub fn is_at_or_above(&self, price: u128) -> (above: bool)
        ensures
            above == (self.last_oracle_price >= price),
    {
        self.last_oracle_price >= 0 && self.last_oracle_price as u128 >= price
    }

    /// A position that leaves takes back its count, as long as the counts had room for it.
    pub proof fn leaving_undoes_joining(self)
        requires
            self.number_of_users < u32::MAX,
            self.number_of_users_with_base < u32::MAX,
        ensures
            self.user_joined().user_left() == self,
    {
    }
}

} // verus!
