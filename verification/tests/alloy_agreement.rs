//! Agreement between this crate's verified parsing, constants and
//! comparisons and what the alloy stack computes for the same inputs.

use std::str::FromStr;

use alloy::primitives::{keccak256, Address as AlloyAddress, B256, U256};
use alloy::signers::local::PrivateKeySigner;

use sweeper::config::{from_values, secp256k1_order_word};
use sweeper::hex::parse_fixed_hex;
use sweeper::logs::transfer_signature_word;
use sweeper::sweep::{encode_balance_of_call, encode_transfer_call, sweep_amount, SweepPolicy};
use sweeper::words::{Address, Word};

#[test]
fn transfer_signature_matches_keccak() {
    let expected = keccak256(b"Transfer(address,address,uint256)");
    assert_eq!(transfer_signature_word().as_bytes().as_slice(), expected.as_slice());
}

#[test]
fn transfer_selector_matches_keccak() {
    let admin = Address::new(vec![0xadu8; 20]).unwrap();
    let amount = Word::new(vec![0u8; 32]).unwrap();
    let call = encode_transfer_call(&admin, &amount);
    let expected = keccak256(b"transfer(address,uint256)");
    assert_eq!(&call[0..4], &expected.as_slice()[0..4]);
}

#[test]
fn balance_of_selector_matches_keccak() {
    let owner = Address::new(vec![0x42u8; 20]).unwrap();
    let call = encode_balance_of_call(&owner);
    let expected = keccak256(b"balanceOf(address)");
    assert_eq!(&call[0..4], &expected.as_slice()[0..4]);
}

#[test]
fn address_parsing_matches_alloy() {
    for text in [
        "00a329c0648769a73afac7f9381e08fb43dbea72",
        "0x00a329c0648769A73afAc7F9381E08FB43dBEA72",
        "0xffffffffffffffffffffffffffffffffffffffff",
    ] {
        let ours = parse_fixed_hex(text.as_bytes(), 20).unwrap();
        let theirs = AlloyAddress::from_str(text).unwrap();
        assert_eq!(ours.as_slice(), theirs.as_slice(), "for {text}");
    }
}

#[test]
fn topic_parsing_matches_alloy() {
    let text = "0x000000000000000000000000a0b1c2d3e4f5061728394a5b6c7d8e9f00112233";
    let ours = parse_fixed_hex(text.as_bytes(), 32).unwrap();
    let theirs = B256::from_str(text).unwrap();
    assert_eq!(ours.as_slice(), theirs.as_slice());
}

#[test]
fn key_acceptance_matches_alloy_signer() {
    let topic = "000000000000000000000000a0b1c2d3e4f5061728394a5b6c7d8e9f00112233";
    let admin = "00a329c0648769a73afac7f9381e08fb43dbea72";
    let samples = [
        "ac0974bec39a17e36ba4a6b4d238ff944bacb478cbed5efcae784d7bf4f2ff80",
        "0xac0974bec39a17e36ba4a6b4d238ff944bacb478cbed5efcae784d7bf4f2ff80",
        "0000000000000000000000000000000000000000000000000000000000000000",
        "0000000000000000000000000000000000000000000000000000000000000001",
        "fffffffffffffffffffffffffffffffebaaedce6af48a03bbfd25e8cd0364141",
        "fffffffffffffffffffffffffffffffebaaedce6af48a03bbfd25e8cd0364140",
        "ffffffffffffffffffffffffffffffffffffffffffffffffffffffffffffffff",
        "not-a-key",
        "abcd",
    ];
    for key in samples {
        let ours = from_values(
            Some(topic.as_bytes()),
            Some(b"wss://node.example/ws"),
            Some(key.as_bytes()),
            Some(admin.as_bytes()),
        )
        .is_ok();
        let theirs = PrivateKeySigner::from_str(key).is_ok();
        assert_eq!(ours, theirs, "acceptance disagrees for {key}");
    }
}

#[test]
fn group_order_word_matches_known_scalar_bound() {
    // The largest accepted key is order - 1; alloy accepts it and refuses
    // the order itself, pinning the constant byte for byte.
    let order_hex: String = secp256k1_order_word()
        .as_bytes()
        .iter()
        .map(|b| format!("{b:02x}"))
        .collect();
    assert!(PrivateKeySigner::from_str(&order_hex).is_err());
    let below = U256::from_be_slice(secp256k1_order_word().as_bytes()) - U256::from(1);
    let below_hex: String = below
        .to_be_bytes::<32>()
        .iter()
        .map(|b| format!("{b:02x}"))
        .collect();
    assert!(PrivateKeySigner::from_str(&below_hex).is_ok());
}

#[test]
fn word_comparison_matches_u256() {
    let patterns: [[u8; 32]; 5] = [
        [0u8; 32],
        [0xffu8; 32],
        {
            let mut p = [0u8; 32];
            p[31] = 1;
            p
        },
        {
            let mut p = [0u8; 32];
            p[0] = 1;
            p
        },
        {
            let mut p = [0x5au8; 32];
            p[15] = 0;
            p
        },
    ];
    for a in &patterns {
        for b in &patterns {
            let wa = Word::new(a.to_vec()).unwrap();
            let wb = Word::new(b.to_vec()).unwrap();
            let ua = U256::from_be_slice(a);
            let ub = U256::from_be_slice(b);
            let ours = sweep_amount(SweepPolicy::BalanceReconciled, &wa, &wb);
            let theirs = std::cmp::max(ua, ub);
            assert_eq!(
                U256::from_be_slice(ours.as_bytes()),
                theirs,
                "max disagrees for {ua} vs {ub}"
            );
        }
    }
}
