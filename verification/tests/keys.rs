use anchor_lang::prelude::Pubkey as SolanaPubkey;
use nebula::amm::instructions::nebula_shield::{arb_config_address, ARB_CONFIG_SEED};
use nebula::amm::instructions::perp_shield::{alert_address, breaker_address};
use nebula::amm::tipy::{TIPY_PROGRAM_ID, TIPY_TREASURY};
use nebula::keys::{same_bytes, Pubkey, TIPY_WALLET};
use std::str::FromStr;

#[test]
fn equal_keys_compare_equal() {
    let a = Pubkey { bytes: [7; 32] };
    let mut b = Pubkey { bytes: [7; 32] };
    assert!(a == b);
    b.bytes[31] = 8;
    assert!(a != b);
}

#[test]
fn bytes_differ_in_any_position() {
    let base = [3u8; 32];
    assert!(same_bytes(&base, &[3u8; 32]));
    for i in 0..32 {
        let mut other = base;
        other[i] = 4;
        assert!(!same_bytes(&base, &other));
    }
}

#[test]
fn fixed_addresses_are_the_published_ones() {
    let wallet = SolanaPubkey::from_str("TiPy76viRMRTcKsZMfNp9enh2cCfaUXg3LPdjtpmBDu").unwrap();
    assert_eq!(wallet.to_bytes(), TIPY_WALLET);
    let treasury = SolanaPubkey::from_str("A1TRS3i2g62Zf6K4vybsW4JLx8wifqSoThyTQqXNaLDK").unwrap();
    assert_eq!(treasury.to_bytes(), TIPY_TREASURY);
    let program = SolanaPubkey::from_str("HGVcd8ufhmkxdkLS1EVwEe9nCWYcitBwjmm1Jsh3RhoV").unwrap();
    assert_eq!(program.to_bytes(), TIPY_PROGRAM_ID);
}

#[test]
fn config_address_is_the_program_address() {
    assert_eq!(&ARB_CONFIG_SEED, b"arb_config");
    for seed in 0u8..20 {
        let pool = Pubkey { bytes: [seed; 32] };
        let program = Pubkey { bytes: [seed.wrapping_mul(7).wrapping_add(1); 32] };
        let (expected, _bump) = SolanaPubkey::find_program_address(
            &[b"arb_config", &pool.bytes],
            &SolanaPubkey::new_from_array(program.bytes),
        );
        let found = arb_config_address(&pool, &program).unwrap();
        assert_eq!(found.bytes, expected.to_bytes());
        assert_ne!(found.bytes, pool.bytes);
    }
}

#[test]
fn breaker_and_alert_addresses_are_program_addresses() {
    let program = Pubkey { bytes: [5; 32] };
    let chain_program = SolanaPubkey::new_from_array([5; 32]);
    for index in [0u64, 1, 2, 255, 256, 0x0102_0304_0506_0708, u64::MAX] {
        let shield = Pubkey { bytes: [index as u8; 32] };
        let (address, bump) = alert_address(&shield, index, &program).unwrap();
        let (expected, expected_bump) = SolanaPubkey::find_program_address(
            &[b"cascade_alert", &shield.bytes, &index.to_le_bytes()],
            &chain_program,
        );
        assert_eq!((address.bytes, bump), (expected.to_bytes(), expected_bump));
        let (address, bump) = breaker_address(&shield, &program).unwrap();
        let (expected, expected_bump) =
            SolanaPubkey::find_program_address(&[b"perp_shield", &shield.bytes], &chain_program);
        assert_eq!((address.bytes, bump), (expected.to_bytes(), expected_bump));
    }
}
