//! Filter matching and `Transfer` log decoding, including the rule that a
//! malformed entry never stops the entries around it.

use sweeper::logs::{
    classify_log, decode_session, transfer_filter, transfer_signature_word, DecodeError, LogFilter,
    LogStep, RawLog,
};
use sweeper::words::{Address, Word};

fn word_with_tail(tail: &[u8]) -> Word {
    let mut bytes = vec![0u8; 32 - tail.len()];
    bytes.extend_from_slice(tail);
    Word::new(bytes).unwrap()
}

fn address_from(byte: u8) -> Address {
    Address::new(vec![byte; 20]).unwrap()
}

fn topic_for(address: &Address) -> Word {
    address.to_topic()
}

fn watch_filter(recipient: &Address) -> LogFilter {
    transfer_filter(&topic_for(recipient))
}

fn valid_log(token: &Address, from: &Address, to: &Address, value_tail: &[u8]) -> RawLog {
    let mut data = vec![0u8; 32 - value_tail.len()];
    data.extend_from_slice(value_tail);
    RawLog {
        address: token.duplicate(),
        topics: vec![transfer_signature_word(), topic_for(from), topic_for(to)],
        data,
    }
}

#[test]
fn matching_log_decodes() {
    let token = address_from(0x10);
    let from = address_from(0x22);
    let to = address_from(0x33);
    let log = valid_log(&token, &from, &to, &[0x01, 0xf4]);
    let filter = watch_filter(&to);
    match classify_log(&log, &filter) {
        LogStep::Decoded(event) => {
            assert!(event.from.eq_address(&from));
            assert!(event.to.eq_address(&to));
            assert!(event.token_contract.eq_address(&token));
            assert_eq!(event.value.as_bytes(), word_with_tail(&[0x01, 0xf4]).as_bytes());
            assert_eq!(event.value.byte_at(30), 0x01);
            assert_eq!(event.value.byte_at(31), 0xf4);
        },
        other => panic!("expected a decoded event, got {other:?}"),
    }
}

#[test]
fn foreign_signature_is_ignored() {
    let to = address_from(0x33);
    let mut log = valid_log(&address_from(0x10), &address_from(0x22), &to, &[0x64]);
    log.topics[0] = word_with_tail(&[0xaa, 0xbb]);
    let filter = watch_filter(&to);
    assert!(matches!(classify_log(&log, &filter), LogStep::Ignored));
}

#[test]
fn empty_topics_are_ignored() {
    let to = address_from(0x33);
    let mut log = valid_log(&address_from(0x10), &address_from(0x22), &to, &[0x64]);
    log.topics.clear();
    let filter = watch_filter(&to);
    assert!(matches!(classify_log(&log, &filter), LogStep::Ignored));
}

#[test]
fn missing_topic_is_malformed() {
    let to = address_from(0x33);
    let mut log = valid_log(&address_from(0x10), &address_from(0x22), &to, &[0x64]);
    log.topics.pop();
    let filter = watch_filter(&to);
    assert!(matches!(
        classify_log(&log, &filter),
        LogStep::Malformed(DecodeError::TopicCount)
    ));
}

#[test]
fn unpadded_address_topic_is_malformed() {
    let to = address_from(0x33);
    let mut log = valid_log(&address_from(0x10), &address_from(0x22), &to, &[0x64]);
    log.topics[1] = Word::new(vec![0xffu8; 32]).unwrap();
    let filter = watch_filter(&to);
    assert!(matches!(
        classify_log(&log, &filter),
        LogStep::Malformed(DecodeError::AddressPadding)
    ));
}

#[test]
fn short_data_is_malformed() {
    let to = address_from(0x33);
    let mut log = valid_log(&address_from(0x10), &address_from(0x22), &to, &[0x64]);
    log.data.pop();
    let filter = watch_filter(&to);
    assert!(matches!(
        classify_log(&log, &filter),
        LogStep::Malformed(DecodeError::DataLength)
    ));
}

#[test]
fn built_filter_watches_transfer_signature() {
    let to = address_from(0x33);
    let filter = watch_filter(&to);
    assert_eq!(
        filter.event_signature.as_bytes(),
        transfer_signature_word().as_bytes()
    );
    assert_eq!(filter.watch_topic.as_bytes(), topic_for(&to).as_bytes());
}

#[test]
fn malformed_entry_does_not_stop_the_session() {
    let token = address_from(0x10);
    let from = address_from(0x22);
    let to = address_from(0x33);
    let first = valid_log(&token, &from, &to, &[0x64]);
    let mut bad = valid_log(&token, &from, &to, &[0x64]);
    bad.data.pop();
    let last = valid_log(&token, &from, &to, &[0xc8]);
    let filter = watch_filter(&to);
    let (events, failures) = decode_session(&filter, &vec![first, bad, last]);
    assert_eq!(events.len(), 2);
    assert_eq!(events[0].value.as_bytes(), word_with_tail(&[0x64]).as_bytes());
    assert_eq!(events[1].value.as_bytes(), word_with_tail(&[0xc8]).as_bytes());
    assert_eq!(failures, vec![DecodeError::DataLength]);
}

#[test]
fn ignored_entries_decode_to_nothing() {
    let to = address_from(0x33);
    let mut foreign = valid_log(&address_from(0x10), &address_from(0x22), &to, &[0x64]);
    foreign.topics[0] = word_with_tail(&[0x01]);
    let filter = watch_filter(&to);
    let (events, failures) = decode_session(&filter, &vec![foreign]);
    assert!(events.is_empty());
    assert!(failures.is_empty());
}
