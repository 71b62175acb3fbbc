//! The amount policy and the encoded sweep transaction.

use sweeper::logs::{classify_log, transfer_filter, transfer_signature_word, LogStep, RawLog};
use sweeper::sweep::{
    build_sweep, encode_balance_of_call, encode_transfer_call, sweep_amount, ConfirmationPolicy,
    SweepPolicy,
};
use sweeper::words::{Address, Word};

fn amount_word(value: u64) -> Word {
    let mut bytes = vec![0u8; 24];
    bytes.extend_from_slice(&value.to_be_bytes());
    Word::new(bytes).unwrap()
}

fn address_from(byte: u8) -> Address {
    Address::new(vec![byte; 20]).unwrap()
}

#[test]
fn emitted_value_policy_keeps_the_value() {
    let value = amount_word(500);
    let balance = amount_word(9_999);
    let amount = sweep_amount(SweepPolicy::EmittedValue, &value, &balance);
    assert_eq!(amount.as_bytes(), value.as_bytes());
}

#[test]
fn reconciled_policy_takes_the_larger_balance() {
    let amount = sweep_amount(SweepPolicy::BalanceReconciled, &amount_word(100), &amount_word(150));
    assert_eq!(amount.as_bytes(), amount_word(150).as_bytes());
}

#[test]
fn reconciled_policy_keeps_the_larger_value() {
    let amount = sweep_amount(SweepPolicy::BalanceReconciled, &amount_word(200), &amount_word(50));
    assert_eq!(amount.as_bytes(), amount_word(200).as_bytes());
}

#[test]
fn reconciled_policy_on_equal_inputs() {
    let amount = sweep_amount(SweepPolicy::BalanceReconciled, &amount_word(77), &amount_word(77));
    assert_eq!(amount.as_bytes(), amount_word(77).as_bytes());
}

#[test]
fn transfer_call_encoding_is_exact() {
    let admin = address_from(0xad);
    let call = encode_transfer_call(&admin, &amount_word(500));
    assert_eq!(call.len(), 68);
    assert_eq!(&call[0..4], &[0xa9, 0x05, 0x9c, 0xbb]);
    assert_eq!(&call[4..16], &[0u8; 12]);
    assert_eq!(&call[16..36], &[0xadu8; 20]);
    let mut expected_amount = vec![0u8; 24];
    expected_amount.extend_from_slice(&500u64.to_be_bytes());
    assert_eq!(&call[36..68], expected_amount.as_slice());
}

#[test]
fn balance_of_call_encoding_is_exact() {
    let owner = address_from(0x42);
    let call = encode_balance_of_call(&owner);
    assert_eq!(call.len(), 36);
    assert_eq!(&call[0..4], &[0x70, 0xa0, 0x82, 0x31]);
    assert_eq!(&call[4..16], &[0u8; 12]);
    assert_eq!(&call[16..36], &[0x42u8; 20]);
}

#[test]
fn provisional_confirmation_is_carried_through() {
    let event_log_token = address_from(0x10);
    let event = match classify_log(
        &RawLog {
            address: event_log_token.duplicate(),
            topics: vec![
                transfer_signature_word(),
                address_from(0x22).to_topic(),
                address_from(0x33).to_topic(),
            ],
            data: vec![0u8; 32],
        },
        &transfer_filter(&address_from(0x33).to_topic()),
    ) {
        LogStep::Decoded(event) => event,
        other => panic!("expected a decoded event, got {other:?}"),
    };
    let plan = build_sweep(
        &event,
        &address_from(0xad),
        SweepPolicy::BalanceReconciled,
        ConfirmationPolicy::Provisional,
        &amount_word(9),
    );
    assert_eq!(plan.confirmation, ConfirmationPolicy::Provisional);
    assert_eq!(plan.amount.as_bytes(), amount_word(9).as_bytes());
}

/// End to end over the verified core: a `Transfer(from=X, to=A, value=500)`
/// log arrives for watched recipient A; under the emitted-value policy
/// exactly one sweep is built, a `transfer(admin, 500)` call addressed to
/// the emitting contract.
#[test]
fn observed_transfer_builds_one_exact_sweep() {
    let token = address_from(0x10);
    let from = address_from(0x22);
    let recipient = address_from(0x33);
    let admin = address_from(0xad);
    let log = RawLog {
        address: token.duplicate(),
        topics: vec![
            transfer_signature_word(),
            from.to_topic(),
            recipient.to_topic(),
        ],
        data: {
            let mut d = vec![0u8; 24];
            d.extend_from_slice(&500u64.to_be_bytes());
            d
        },
    };
    let filter = transfer_filter(&recipient.to_topic());
    let mut plans = Vec::new();
    for entry in [&log] {
        if let LogStep::Decoded(event) = classify_log(entry, &filter) {
            let balance = amount_word(0);
            plans.push(build_sweep(
                &event,
                &admin,
                SweepPolicy::EmittedValue,
                ConfirmationPolicy::Finalized,
                &balance,
            ));
        }
    }
    assert_eq!(plans.len(), 1);
    let plan = &plans[0];
    assert_eq!(plan.token_contract.as_bytes(), token.as_bytes());
    assert_eq!(plan.amount.as_bytes(), amount_word(500).as_bytes());
    assert_eq!(plan.confirmation, ConfirmationPolicy::Finalized);
    assert_eq!(plan.call_data, encode_transfer_call(&admin, &amount_word(500)));
}
