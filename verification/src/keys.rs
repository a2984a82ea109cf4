//! Account addresses, and the two address and digest functions of the Solana runtime.
use vstd::prelude::*;

verus! {

/// Wallet of the TiPy treasury: `TiPy76viRMRTcKsZMfNp9enh2cCfaUXg3LPdjtpmBDu`.
pub const TIPY_WALLET: [u8; 32] = [
    6, 215, 232, 90, 101, 102, 59, 32, 91, 69, 209, 211, 204, 36, 27, 214, 71, 23, 202, 10, 233,
    208, 60, 20, 249, 25, 38, 85, 211, 56, 126, 132,
];

/// Address of an account.
#[derive(Clone, Copy, Debug)]
pub struct Pubkey {
    pub bytes: [u8; 32],
}

impl Pubkey {
    /// All bytes are zero.
    pub open spec fn is_zero(self) -> bool {
        forall|i: int| 0 <= i < 32 ==> self.bytes@[i] == 0
    }
}

impl Default for Pubkey {
    fn default() -> (key: Pubkey)
        ensures
            key.is_zero(),
    {
        Pubkey { bytes: [0u8; 32] }
    }
}

impl PartialEq for Pubkey {
    fn eq(&self, other: &Pubkey) -> (equal: bool) {
        same_bytes(&self.bytes, &other.bytes)
    }
}

impl Eq for Pubkey {

}

impl vstd::std_specs::cmp::PartialEqSpecImpl for Pubkey {
    open spec fn obeys_eq_spec() -> bool {
        true
    }

    open spec fn eq_spec(&self, other: &Pubkey) -> bool {
        *self == *other
    }
}

/// Whether two digests or addresses hold the same bytes.
pub fn same_bytes(a: &[u8; 32], b: &[u8; 32]) -> (same: bool)
    ensures
        same == (*a == *b),
        same == (a@ == b@),
{
    let mut i: usize = 0;
    while i < 32
        invariant
            i <= 32,
            forall|j: int| 0 <= j < i ==> a@[j] == b@[j],
        decreases 32 - i,
    {
        if a[i] != b[i] {
            assert(a@[i as int] != b@[i as int]);
            return false;
        }
        i = i + 1;
    }
    assert(*a =~= *b);
    true
}

/// SHA-256 digest of `data`.
pub uninterp spec fn sha256_digest(data: Seq<u8>) -> Seq<u8>;

/// Calls `solana_program::hash::hash`. Claims that the 32 bytes of the returned hash depend on the
/// hashed bytes alone; they are named by [`sha256_digest`].
#[verifier::external_body]
pub(crate) fn sha256(data: &[u8]) -> (digest: [u8; 32])
    ensures
        digest@ == sha256_digest(data@),
{
    anchor_lang::solana_program::hash::hash(data).to_bytes()
}

/// Program-derived address of `seeds` under `program_id`, with its bump seed; none where no bump
/// seed gives an address off the curve or the seeds are too many or too long.
pub uninterp spec fn program_address(
    seeds: Seq<Seq<u8>>,
    program_id: Seq<u8>,
) -> Option<([u8; 32], u8)>;

/// The bytes of each seed.
pub open spec fn seed_bytes(seeds: Seq<&[u8]>) -> Seq<Seq<u8>> {
    seeds.map_values(|seed: &[u8]| seed@)
}

/// Calls `Pubkey::try_find_program_address`, of which `Pubkey::find_program_address` is the form
/// that panics where nothing is found. Claims that the outcome depends on the seeds and the program
/// id alone; it is named by [`program_address`].
#[verifier::external_body]
pub(crate) fn find_program_address(seeds: &[&[u8]], program_id: &Pubkey) -> (found: Option<
    (Pubkey, u8),
>)
    ensures
        match found {
            Some((address, bump)) => program_address(seed_bytes(seeds@), program_id.bytes@) == Some(
                (address.bytes, bump),
            ),
            None => program_address(seed_bytes(seeds@), program_id.bytes@) is None,
        },
{
    let program = anchor_lang::prelude::Pubkey::new_from_array(program_id.bytes);
    match anchor_lang::prelude::Pubkey::try_find_program_address(seeds, &program) {
        Some((address, bump)) => Some((Pubkey { bytes: address.to_bytes() }, bump)),
        None => None,
    }
}

} // verus!
