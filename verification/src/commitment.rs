//! Commitments to the private details of a position: the bytes over which the digest is taken.
use vstd::prelude::*;
#[allow(unused_imports)]
use vstd::arithmetic::div_mod::lemma_div_denominator;
#[allow(unused_imports)]
use vstd::arithmetic::power::{lemma_pow0, lemma_pow_positive, pow};

use crate::keys::{same_bytes, sha256};
#[allow(unused_imports)]
use crate::keys::sha256_digest;

verus! {

/// The `n` low bytes of `x`, lowest first.
pub open spec fn le_bytes(x: nat, n: nat) -> Seq<u8>
    decreases n,
{
    if n == 0 {
        Seq::empty()
    } else {
        seq![(x % 256) as u8] + le_bytes(x / 256, (n - 1) as nat)
    }
}

/// One more than the largest number that `n` bytes hold.
pub open spec fn byte_range(n: nat) -> nat
    decreases n,
{
    if n == 0 {
        1
    } else {
        256 * byte_range((n - 1) as nat)
    }
}

/// Byte form of the private details of a position: size, leverage, entry price, liquidation price
/// and salt.
pub open spec fn position_preimage(
    size: u64,
    leverage_bps: u16,
    entry_price_x64: u128,
    liquidation_price_x64: u128,
    salt: Seq<u8>,
) -> Seq<u8> {
    le_bytes(size as nat, 8) + le_bytes(leverage_bps as nat, 2) + le_bytes(
        entry_price_x64 as nat,
        16,
    ) + le_bytes(liquidation_price_x64 as nat, 16) + salt
}

/// Appends the `n` low bytes of `x`, lowest first.
pub fn push_le_bytes(out: &mut Vec<u8>, x: u128, n: usize)
    ensures
        final(out)@ == old(out)@ + le_bytes(x as nat, n as nat),
{
    let mut rest: u128 = x;
    let mut i: usize = 0;
    assert(out@ + le_bytes(rest as nat, n as nat) == old(out)@ + le_bytes(x as nat, n as nat));
    while i < n
        invariant
            i <= n,
            out@ + le_bytes(rest as nat, (n - i) as nat) == old(out)@ + le_bytes(
                x as nat,
                n as nat,
            ),
        decreases n - i,
    {
        let byte: u8 = (rest % 256) as u8;
        assert(out@ + le_bytes(rest as nat, (n - i) as nat) =~= out@.push(byte) + le_bytes(
            (rest / 256) as nat,
            (n - i - 1) as nat,
        ));
        out.push(byte);
        rest = rest / 256;
        i = i + 1;
    }
    assert(out@ + le_bytes(rest as nat, 0) =~= out@);
}

/// Byte form of the private details of a position.
pub fn encode_position(
    size: u64,
    leverage_bps: u16,
    entry_price_x64: u128,
    liquidation_price_x64: u128,
    salt: &[u8; 16],
) -> (preimage: Vec<u8>)
    ensures
        preimage@ == position_preimage(
            size,
            leverage_bps,
            entry_price_x64,
            liquidation_price_x64,
            salt@,
        ),
        preimage@.len() == 58,
{
    let mut preimage: Vec<u8> = Vec::with_capacity(58);
    push_le_bytes(&mut preimage, size as u128, 8);
    push_le_bytes(&mut preimage, leverage_bps as u128, 2);
    push_le_bytes(&mut preimage, entry_price_x64, 16);
    push_le_bytes(&mut preimage, liquidation_price_x64, 16);
    let mut i: usize = 0;
    let ghost start = preimage@;
    assert(start + salt@.take(0) =~= start);
    while i < 16
        invariant
            i <= 16,
            preimage@ == start + salt@.take(i as int),
        decreases 16 - i,
    {
        assert(start + salt@.take(i as int + 1) =~= (start + salt@.take(i as int)).push(
            salt@[i as int],
        ));
        preimage.push(salt[i]);
        i = i + 1;
    }
    proof {
        assert(salt@.take(16) =~= salt@);
        le_bytes_len(size as nat, 8);
        le_bytes_len(leverage_bps as nat, 2);
        le_bytes_len(entry_price_x64 as nat, 16);
        le_bytes_len(liquidation_price_x64 as nat, 16);
        assert(preimage@ =~= position_preimage(
            size,
            leverage_bps,
            entry_price_x64,
            liquidation_price_x64,
            salt@,
        ));
    }
    preimage
}

/// The digest that commits to the details of a position.
pub open spec fn position_digest(
    size: u64,
    leverage_bps: u16,
    entry_price_x64: u128,
    liquidation_price_x64: u128,
    salt: [u8; 16],
) -> Seq<u8> {
    sha256_digest(
        position_preimage(size, leverage_bps, entry_price_x64, liquidation_price_x64, salt@),
    )
}

/// Computes the digest that commits to the details of a position.
pub fn digest_of_position(
    size: u64,
    leverage_bps: u16,
    entry_price_x64: u128,
    liquidation_price_x64: u128,
    salt: &[u8; 16],
) -> (digest: [u8; 32])
    ensures
        digest@ == position_digest(
            size,
            leverage_bps,
            entry_price_x64,
            liquidation_price_x64,
            *salt,
        ),
{
    let preimage = encode_position(
        size,
        leverage_bps,
        entry_price_x64,
        liquidation_price_x64,
        salt,
    );
    sha256(preimage.as_slice())
}

/// Whether a digest is all zeros.
pub open spec fn is_zero_digest(commitment: [u8; 32]) -> bool {
    forall|i: int| 0 <= i < 32 ==> commitment@[i] == 0
}

/// Tests whether a digest is all zeros.
pub fn has_only_zeros(commitment: &[u8; 32]) -> (zero: bool)
    ensures
        zero == is_zero_digest(*commitment),
{
    let zeros = [0u8; 32];
    let same = same_bytes(commitment, &zeros);
    proof {
        if same {
            assert forall|i: int| 0 <= i < 32 implies commitment@[i] == 0 by {
                assert(zeros@[i] == 0);
            }
        } else if is_zero_digest(*commitment) {
            assert(commitment@ =~= zeros@);
        }
    }
    same
}

pub proof fn le_bytes_len(x: nat, n: nat)
    ensures
        le_bytes(x, n).len() == n,
    decreases n,
{
    if n > 0 {
        le_bytes_len(x / 256, (n - 1) as nat);
    }
}

/// Two numbers that fit `n` bytes and have the same bytes are the same.
pub proof fn le_bytes_determine_number(x: nat, y: nat, n: nat)
    requires
        x < byte_range(n),
        y < byte_range(n),
        le_bytes(x, n) == le_bytes(y, n),
    ensures
        x == y,
    decreases n,
{
    if n > 0 {
        let rest = (n - 1) as nat;
        le_bytes_len(x / 256, rest);
        le_bytes_len(y / 256, rest);
        assert(le_bytes(x, n)[0] == (x % 256) as u8);
        assert(le_bytes(y, n)[0] == (y % 256) as u8);
        assert(le_bytes(x, n).skip(1) =~= le_bytes(x / 256, rest));
        assert(le_bytes(y, n).skip(1) =~= le_bytes(y / 256, rest));
        le_bytes_determine_number(x / 256, y / 256, rest);
        assert(x % 256 == y % 256);
    }
}

/// The byte form determines every detail of a position: two positions with different details have
/// different byte forms.
pub proof fn preimage_determines_position(
    size: u64,
    leverage_bps: u16,
    entry: u128,
    liquidation: u128,
    salt: Seq<u8>,
    other_size: u64,
    other_leverage_bps: u16,
    other_entry: u128,
    other_liquidation: u128,
    other_salt: Seq<u8>,
)
    requires
        position_preimage(size, leverage_bps, entry, liquidation, salt) == position_preimage(
            other_size,
            other_leverage_bps,
            other_entry,
            other_liquidation,
            other_salt,
        ),
    ensures
        size == other_size,
        leverage_bps == other_leverage_bps,
        entry == other_entry,
        liquidation == other_liquidation,
        salt == other_salt,
{
    let a = position_preimage(size, leverage_bps, entry, liquidation, salt);
    le_bytes_len(size as nat, 8);
    le_bytes_len(leverage_bps as nat, 2);
    le_bytes_len(entry as nat, 16);
    le_bytes_len(liquidation as nat, 16);
    le_bytes_len(other_size as nat, 8);
    le_bytes_len(other_leverage_bps as nat, 2);
    le_bytes_len(other_entry as nat, 16);
    le_bytes_len(other_liquidation as nat, 16);
    assert(a.subrange(0, 8) =~= le_bytes(size as nat, 8));
    assert(a.subrange(0, 8) =~= le_bytes(other_size as nat, 8));
    assert(a.subrange(8, 10) =~= le_bytes(leverage_bps as nat, 2));
    assert(a.subrange(8, 10) =~= le_bytes(other_leverage_bps as nat, 2));
    assert(a.subrange(10, 26) =~= le_bytes(entry as nat, 16));
    assert(a.subrange(10, 26) =~= le_bytes(other_entry as nat, 16));
    assert(a.subrange(26, 42) =~= le_bytes(liquidation as nat, 16));
    assert(a.subrange(26, 42) =~= le_bytes(other_liquidation as nat, 16));
    assert(a.skip(42) =~= salt);
    assert(a.skip(42) =~= other_salt);
    reveal_with_fuel(byte_range, 17);
    le_bytes_determine_number(size as nat, other_size as nat, 8);
    le_bytes_determine_number(leverage_bps as nat, other_leverage_bps as nat, 2);
    le_bytes_determine_number(entry as nat, other_entry as nat, 16);
    le_bytes_determine_number(liquidation as nat, other_liquidation as nat, 16);
}

// Laws.
/// The bytes of a number are its digits to the base 256, lowest first: the byte at place `i` says
/// how often the `i`-th power of 256 is in it, beyond what the next power takes.
pub proof fn bytes_are_digits_lowest_first(x: nat, n: nat, i: nat)
    requires
        i < n,
    ensures
        le_bytes(x, n).len() == n,
        le_bytes(x, n)[i as int] == x as int / pow(256, i) % 256,
    decreases n,
{
    le_bytes_len(x, n);
    if i == 0 {
        lemma_pow0(256);
        assert(x as int / 1 == x);
    } else {
        let rest = (n - 1) as nat;
        let before = (i - 1) as nat;
        le_bytes_len(x / 256, rest);
        bytes_are_digits_lowest_first(x / 256, rest, before);
        assert(le_bytes(x, n)[i as int] == le_bytes(x / 256, rest)[before as int]);
        lemma_pow_positive(256, before);
        reveal(pow);
        assert(pow(256, i) == 256 * pow(256, before));
        lemma_div_denominator(x as int, 256, pow(256, before));
    }
}

/// The byte form of a position has 58 bytes: eight of its size, two of its leverage, sixteen each
/// of its entry and its liquidation price, lowest first, and the sixteen of its salt.
pub proof fn byte_form_has_its_layout(
    size: u64,
    leverage_bps: u16,
    entry: u128,
    liquidation: u128,
    salt: [u8; 16],
)
    ensures
        ({
            let bytes = position_preimage(size, leverage_bps, entry, liquidation, salt@);
            &&& bytes.len() == 58
            &&& forall|i: nat|
                i < 8 ==> bytes[i as int] == size as int / (#[trigger] pow(256, i)) % 256
            &&& forall|i: nat|
                i < 2 ==> bytes[8 + i as int]
                    == leverage_bps as int / (#[trigger] pow(256, i)) % 256
            &&& forall|i: nat|
                i < 16 ==> bytes[10 + i as int] == entry as int / (#[trigger] pow(256, i)) % 256
            &&& forall|i: nat|
                i < 16 ==> bytes[26 + i as int]
                    == liquidation as int / (#[trigger] pow(256, i)) % 256
            &&& forall|i: int| 0 <= i < 16 ==> bytes[42 + i] == #[trigger] salt@[i]
        }),
{
    let bytes = position_preimage(size, leverage_bps, entry, liquidation, salt@);
    le_bytes_len(size as nat, 8);
    le_bytes_len(leverage_bps as nat, 2);
    le_bytes_len(entry as nat, 16);
    le_bytes_len(liquidation as nat, 16);
    assert forall|i: nat| i < 8 implies bytes[i as int] == size as int / (#[trigger] pow(256, i))
        % 256 by {
        bytes_are_digits_lowest_first(size as nat, 8, i);
    }
    assert forall|i: nat| i < 2 implies
        bytes[8 + i as int] == leverage_bps as int / (#[trigger] pow(256, i)) % 256 by {
        bytes_are_digits_lowest_first(leverage_bps as nat, 2, i);
    }
    assert forall|i: nat| i < 16 implies
        bytes[10 + i as int] == entry as int / (#[trigger] pow(256, i)) % 256 by {
        bytes_are_digits_lowest_first(entry as nat, 16, i);
    }
    assert forall|i: nat| i < 16 implies
        bytes[26 + i as int] == liquidation as int / (#[trigger] pow(256, i)) % 256 by {
        bytes_are_digits_lowest_first(liquidation as nat, 16, i);
    }
}

/// What commits to a position is the digest of the bytes in that layout, whatever they were made
/// by.
pub proof fn commitment_is_the_digest_of_the_layout(
    size: u64,
    leverage_bps: u16,
    entry: u128,
    liquidation: u128,
    salt: [u8; 16],
    bytes: Seq<u8>,
)
    requires
        bytes.len() == 58,
        forall|i: nat| i < 8 ==> bytes[i as int] == size as int / (#[trigger] pow(256, i)) % 256,
        forall|i: nat|
            i < 2 ==> bytes[8 + i as int] == leverage_bps as int / (#[trigger] pow(256, i)) % 256,
        forall|i: nat|
            i < 16 ==> bytes[10 + i as int] == entry as int / (#[trigger] pow(256, i)) % 256,
        forall|i: nat|
            i < 16 ==> bytes[26 + i as int] == liquidation as int / (#[trigger] pow(256, i)) % 256,
        forall|i: int| 0 <= i < 16 ==> bytes[42 + i] == #[trigger] salt@[i],
    ensures
        position_digest(size, leverage_bps, entry, liquidation, salt) == sha256_digest(bytes),
{
    let own = position_preimage(size, leverage_bps, entry, liquidation, salt@);
    byte_form_has_its_layout(size, leverage_bps, entry, liquidation, salt);
    assert forall|k: int| 0 <= k < 58 implies own[k] == bytes[k] by {
        if k < 8 {
            let digit = pow(256, k as nat);
        } else if k < 10 {
            let i = (k - 8) as nat;
            let digit = pow(256, i);
            assert(own[8 + i as int] == bytes[8 + i as int]);
        } else if k < 26 {
            let i = (k - 10) as nat;
            let digit = pow(256, i);
            assert(own[10 + i as int] == bytes[10 + i as int]);
        } else if k < 42 {
            let i = (k - 26) as nat;
            let digit = pow(256, i);
            assert(own[26 + i as int] == bytes[26 + i as int]);
        } else {
            let byte = salt@[k - 42];
            assert(own[42 + (k - 42)] == bytes[42 + (k - 42)]);
        }
    }
    assert(own =~= bytes);
}

/// A digest is all zeros exactly where no byte of it is another.
pub proof fn zero_digest_has_no_other_byte(commitment: [u8; 32], i: int)
    requires
        0 <= i < 32,
    ensures
        commitment@[i] != 0 ==> !is_zero_digest(commitment),
        (forall|j: int| 0 <= j < 32 ==> #[trigger] commitment@[j] == 0) ==> is_zero_digest(
            commitment,
        ),
{
}

} // verus!
