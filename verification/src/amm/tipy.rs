//! TiPy fee routing.
//!
//! A share of every collected protocol fee goes to the TiPy treasury. The split is in basis points
//! and fixed here, so that no administrator can route fees away from TiPy.
use vstd::prelude::*;

verus! {

/// Address of the TiPy treasury, which receives the routed share of protocol fees:
/// `A1TRS3i2g62Zf6K4vybsW4JLx8wifqSoThyTQqXNaLDK`.
pub const TIPY_TREASURY: [u8; 32] = [
    133, 215, 14, 146, 195, 7, 108, 183, 174, 175, 199, 163, 9, 243, 56, 140, 144, 18, 5, 179, 72,
    102, 252, 57, 30, 144, 56, 81, 185, 180, 110, 46,
];

/// Address of the TiPy tip-router program: `HGVcd8ufhmkxdkLS1EVwEe9nCWYcitBwjmm1Jsh3RhoV`.
pub const TIPY_PROGRAM_ID: [u8; 32] = [
    241, 179, 14, 159, 206, 68, 138, 115, 69, 194, 131, 13, 59, 118, 46, 197, 11, 221, 223, 173, 48,
    49, 243, 14, 45, 98, 23, 214, 204, 231, 170, 8,
];

/// Share of a collected protocol fee that goes to the TiPy treasury, in basis points.
pub const TIPY_ROUTE_BPS: u64 = 2000;

/// Basis-point denominator.
pub const TIPY_BPS_DENOM: u64 = 10_000;

/// Splits a protocol fee into the administrator's share and the TiPy share.
pub fn split(amount: u64) -> (shares: (u64, u64))
    ensures
        shares.1 == amount as int * TIPY_ROUTE_BPS / TIPY_BPS_DENOM as int,
        shares.0 + shares.1 == amount,
        shares.1 * 5 <= amount < shares.1 * 5 + 5,
{
    let tipy: u64 = ((amount as u128) * (TIPY_ROUTE_BPS as u128) / (TIPY_BPS_DENOM as u128)) as u64;
    (amount - tipy, tipy)
}

/// The TiPy share of a fee is a fifth of it, rounded down.
pub proof fn tipy_gets_a_fifth(amount: u64)
    ensures
        ({
            let share = amount as int * TIPY_ROUTE_BPS / TIPY_BPS_DENOM as int;
            share * 5 <= amount < share * 5 + 5
        }),
{
}

/// The TiPy share never shrinks when the fee grows, and neither does the administrator's.
pub proof fn split_is_monotone(smaller: u64, larger: u64)
    requires
        smaller <= larger,
    ensures
        smaller as int * TIPY_ROUTE_BPS / TIPY_BPS_DENOM as int <= larger as int * TIPY_ROUTE_BPS
            / TIPY_BPS_DENOM as int,
        smaller - smaller as int * TIPY_ROUTE_BPS / TIPY_BPS_DENOM as int <= larger - larger as int
            * TIPY_ROUTE_BPS / TIPY_BPS_DENOM as int,
{
}

} // verus!
