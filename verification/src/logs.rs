//! The `Transfer` log filter and decoder: raw log entries, the
//! subscription filter, and the per-entry dispatcher step that either
//! decodes a typed transfer event, ignores a non-matching entry, or
//! reports a malformed one without ending the session.

use vstd::prelude::*;
use crate::words::Word;
use crate::words::Address;
use crate::words::is_address_topic;
use crate::words::copy_bytes;

verus! {

/// Signature topic of the ERC20 event `Transfer(address,address,uint256)`:
/// the standard 32-byte hash constant that identifies it.
pub open spec fn transfer_signature() -> Seq<u8> {
    seq![
        0xddu8,
        0xf2u8,
        0x52u8,
        0xadu8,
        0x1bu8,
        0xe2u8,
        0xc8u8,
        0x9bu8,
        0x69u8,
        0xc2u8,
        0xb0u8,
        0x68u8,
        0xfcu8,
        0x37u8,
        0x8du8,
        0xaau8,
        0x95u8,
        0x2bu8,
        0xa7u8,
        0xf1u8,
        0x63u8,
        0xc4u8,
        0xa1u8,
        0x16u8,
        0x28u8,
        0xf5u8,
        0x5au8,
        0x4du8,
        0xf5u8,
        0x23u8,
        0xb3u8,
        0xefu8,
    ]
}

/// The signature topic as a word.
pub fn transfer_signature_word() -> (w: Word)
    ensures
        w.wf(),
        w@ == transfer_signature(),
{
    let mut v: Vec<u8> = Vec::new();
    v.push(0xdd);
    v.push(0xf2);
    v.push(0x52);
    v.push(0xad);
    v.push(0x1b);
    v.push(0xe2);
    v.push(0xc8);
    v.push(0x9b);
    v.push(0x69);
    v.push(0xc2);
    v.push(0xb0);
    v.push(0x68);
    v.push(0xfc);
    v.push(0x37);
    v.push(0x8d);
    v.push(0xaa);
    v.push(0x95);
    v.push(0x2b);
    v.push(0xa7);
    v.push(0xf1);
    v.push(0x63);
    v.push(0xc4);
    v.push(0xa1);
    v.push(0x16);
    v.push(0x28);
    v.push(0xf5);
    v.push(0x5a);
    v.push(0x4d);
    v.push(0xf5);
    v.push(0x23);
    v.push(0xb3);
    v.push(0xef);
    assert(v@ =~= transfer_signature());
    Word::from_exact(v)
}

/// One raw log entry as the node delivers it: emitting contract address,
/// indexed topics, and the data payload.
#[derive(Debug)]
pub struct RawLog {
    pub address: Address,
    pub topics: Vec<Word>,
    pub data: Vec<u8>,
}

impl RawLog {
    pub open spec fn wf(self) -> bool {
        &&& self.address.wf()
        &&& forall|i: int| 0 <= i < self.topics@.len() ==> (#[trigger] self.topics@[i]).wf()
    }
}

/// A decoded `Transfer` event, together with the contract that emitted it.
#[derive(Debug)]
pub struct TransferEvent {
    pub from: Address,
    pub to: Address,
    pub value: Word,
    pub token_contract: Address,
}

/// Spec-level picture of a decoded event: the byte strings of its fields.
#[verifier::ext_equal]
pub ghost struct TransferView {
    pub from: Seq<u8>,
    pub to: Seq<u8>,
    pub value: Seq<u8>,
    pub token_contract: Seq<u8>,
}

impl View for TransferEvent {
    type V = TransferView;

    open spec fn view(&self) -> TransferView {
        TransferView {
            from: self.from@,
            to: self.to@,
            value: self.value@,
            token_contract: self.token_contract@,
        }
    }
}

impl TransferEvent {
    pub open spec fn wf(self) -> bool {
        self.from.wf() && self.to.wf() && self.value.wf() && self.token_contract.wf()
    }
}

/// The subscription filter: the event signature for the primary topic and
/// the watched recipient for the second indexed topic.
#[derive(Debug)]
pub struct LogFilter {
    pub event_signature: Word,
    pub watch_topic: Word,
}

impl LogFilter {
    pub open spec fn wf(self) -> bool {
        self.event_signature.wf() && self.watch_topic.wf()
    }
}

/// The filter selecting `Transfer` events sent to the watched topic.
pub fn transfer_filter(watch_topic: &Word) -> (f: LogFilter)
    requires
        watch_topic.wf(),
    ensures
        f.wf(),
        f.event_signature@ == transfer_signature(),
        f.watch_topic@ == watch_topic@,
{
    LogFilter { event_signature: transfer_signature_word(), watch_topic: watch_topic.duplicate() }
}

/// Node-side filter semantics: the entry's primary topic equals the
/// filter's event signature and its second indexed topic equals the
/// watched topic.
pub open spec fn filter_selects(f: LogFilter, log: RawLog) -> bool {
    &&& log.topics@.len() >= 3
    &&& log.topics@[0]@ == f.event_signature@
    &&& log.topics@[2]@ == f.watch_topic@
}

/// Filter correctness: a raw log is selected exactly where its primary
/// topic is the `Transfer` signature and its second indexed topic equals
/// the watched recipient topic; every other log is left out. Together
/// with `classify_log`, which ignores exactly the entries whose primary
/// topic does not match the signature, no other entry reaches decoding.
pub proof fn lemma_filter_selects_iff(f: LogFilter, log: RawLog)
    requires
        f.event_signature@ == transfer_signature(),
    ensures
        filter_selects(f, log) <==> (log.topics@.len() >= 3
            && log.topics@[0]@ == transfer_signature()
            && log.topics@[2]@ == f.watch_topic@),
{
}

/// The entry has the exact shape of a `Transfer` log: three topics, the
/// two indexed addresses carried with zero padding, and a 32-byte amount.
pub open spec fn transfer_shape_ok(log: RawLog) -> bool {
    &&& log.topics@.len() == 3
    &&& is_address_topic(log.topics@[1]@)
    &&& is_address_topic(log.topics@[2]@)
    &&& log.data@.len() == 32
}

/// The event a well-shaped `Transfer` log denotes.
pub open spec fn event_of(log: RawLog) -> TransferView {
    TransferView {
        from: log.topics@[1]@.skip(12),
        to: log.topics@[2]@.skip(12),
        value: log.data@,
        token_contract: log.address@,
    }
}

/// Why a matching entry could not be decoded.
#[derive(Clone, Copy, Debug, PartialEq, Eq, Structural)]
pub enum DecodeError {
    TopicCount,
    AddressPadding,
    DataLength,
}

/// The error a matching but ill-shaped entry is reported with.
pub open spec fn decode_error_of(log: RawLog) -> DecodeError {
    if log.topics@.len() != 3 {
        DecodeError::TopicCount
    } else if !(is_address_topic(log.topics@[1]@) && is_address_topic(log.topics@[2]@)) {
        DecodeError::AddressPadding
    } else {
        DecodeError::DataLength
    }
}

/// What the dispatcher does with one delivered entry.
#[derive(Debug)]
pub enum LogStep {
    Decoded(TransferEvent),
    Ignored,
    Malformed(DecodeError),
}

/// The entry's primary topic matches the filter's event signature.
pub open spec fn signature_matches(f: LogFilter, log: RawLog) -> bool {
    log.topics@.len() >= 1 && log.topics@[0]@ == f.event_signature@
}

/// The dispatcher decodes the entry: it matches the signature and is
/// well shaped.
pub open spec fn accepts(f: LogFilter, log: RawLog) -> bool {
    signature_matches(f, log) && transfer_shape_ok(log)
}

/// One dispatcher step on a delivered entry. The primary topic is
/// re-checked defensively: an entry that slipped past the filter is
/// silently ignored. A matching but ill-shaped entry is reported as
/// malformed, never ending the session.
pub fn classify_log(log: &RawLog, filter: &LogFilter) -> (r: LogStep)
    requires
        log.wf(),
        filter.wf(),
    ensures
        (r is Ignored) <==> !signature_matches(*filter, *log),
        (r is Decoded) <==> accepts(*filter, *log),
        r matches LogStep::Decoded(e) ==> e@ =~= event_of(*log) && e.wf(),
        r matches LogStep::Malformed(err) ==> err == decode_error_of(*log),
{
    if log.topics.len() == 0 {
        return LogStep::Ignored;
    }
    if !log.topics[0].eq_word(&filter.event_signature) {
        return LogStep::Ignored;
    }
    if log.topics.len() != 3 {
        return LogStep::Malformed(DecodeError::TopicCount);
    }
    if !log.topics[1].has_address_padding() || !log.topics[2].has_address_padding() {
        return LogStep::Malformed(DecodeError::AddressPadding);
    }
    if log.data.len() != 32 {
        return LogStep::Malformed(DecodeError::DataLength);
    }
    let value = Word::from_exact(copy_bytes(&log.data));
    LogStep::Decoded(TransferEvent {
        from: log.topics[1].to_address(),
        to: log.topics[2].to_address(),
        value,
        token_contract: log.address.duplicate(),
    })
}

/// The events a session's delivered entries decode to, in delivery order;
/// entries that are not accepted contribute nothing.
pub open spec fn decoded_events(f: LogFilter, logs: Seq<RawLog>) -> Seq<TransferView>
    decreases logs.len(),
{
    if logs.len() == 0 {
        Seq::empty()
    } else {
        let rest = decoded_events(f, logs.drop_last());
        if accepts(f, logs.last()) {
            rest.push(event_of(logs.last()))
        } else {
            rest
        }
    }
}

/// Decoding distributes over concatenation of delivered entries.
pub proof fn lemma_decoded_events_concat(f: LogFilter, a: Seq<RawLog>, b: Seq<RawLog>)
    ensures
        decoded_events(f, a + b) == decoded_events(f, a) + decoded_events(f, b),
    decreases b.len(),
{
    if b.len() == 0 {
        assert(a + b =~= a);
        assert(decoded_events(f, a) + decoded_events(f, b) =~= decoded_events(f, a));
    } else {
        lemma_decoded_events_concat(f, a, b.drop_last());
        assert((a + b).drop_last() =~= a + b.drop_last());
        assert((a + b).last() == b.last());
        if accepts(f, b.last()) {
            assert((decoded_events(f, a) + decoded_events(f, b.drop_last())).push(
                event_of(b.last())) =~= decoded_events(f, a) + decoded_events(f, b));
        } else {
            assert(decoded_events(f, b) == decoded_events(f, b.drop_last()));
        }
    }
}

/// No silent decode-failure propagation: one entry that is not accepted,
/// standing among otherwise valid entries, leaves the events decoded from
/// the entries before and after it untouched.
pub proof fn lemma_malformed_entry_skipped(
    f: LogFilter,
    before: Seq<RawLog>,
    bad: RawLog,
    after: Seq<RawLog>,
)
    requires
        !accepts(f, bad),
    ensures
        decoded_events(f, before + seq![bad] + after) == decoded_events(f, before)
            + decoded_events(f, after),
{
    lemma_decoded_events_concat(f, before + seq![bad], after);
    lemma_decoded_events_concat(f, before, seq![bad]);
    assert(seq![bad].drop_last() =~= Seq::<RawLog>::empty());
    assert(seq![bad].last() == bad);
    assert(decoded_events(f, Seq::<RawLog>::empty()) =~= Seq::<TransferView>::empty());
    assert(decoded_events(f, seq![bad]) =~= Seq::<TransferView>::empty());
    assert(decoded_events(f, before) + decoded_events(f, seq![bad]) =~= decoded_events(f, before));
}

/// Decode errors reported over a session, in delivery order: one per
/// matching but ill-shaped entry.
pub open spec fn decode_failures(f: LogFilter, logs: Seq<RawLog>) -> Seq<DecodeError>
    decreases logs.len(),
{
    if logs.len() == 0 {
        Seq::empty()
    } else {
        let rest = decode_failures(f, logs.drop_last());
        if signature_matches(f, logs.last()) && !transfer_shape_ok(logs.last()) {
            rest.push(decode_error_of(logs.last()))
        } else {
            rest
        }
    }
}

/// Runs the dispatcher over a whole delivered sequence. Malformed entries
/// are reported beside the decoded events; they never end the run.
pub fn decode_session(filter: &LogFilter, logs: &Vec<RawLog>) -> (r: (Vec<TransferEvent>, Vec<
    DecodeError,
>))
    requires
        filter.wf(),
        forall|i: int| 0 <= i < logs@.len() ==> (#[trigger] logs@[i]).wf(),
    ensures
        r.0@.len() == decoded_events(*filter, logs@).len(),
        forall|i: int| 0 <= i < r.0@.len() ==> (#[trigger] r.0@[i])@ == decoded_events(
            *filter, logs@)[i] && r.0@[i].wf(),
        r.1@ == decode_failures(*filter, logs@),
{
    let mut events: Vec<TransferEvent> = Vec::new();
    let mut failures: Vec<DecodeError> = Vec::new();
    let mut i: usize = 0;
    while i < logs.len()
        invariant
            filter.wf(),
            forall|k: int| 0 <= k < logs@.len() ==> (#[trigger] logs@[k]).wf(),
            i <= logs@.len(),
            events@.len() == decoded_events(*filter, logs@.take(i as int)).len(),
            forall|k: int| 0 <= k < events@.len() ==> (#[trigger] events@[k])@ == decoded_events(
                *filter, logs@.take(i as int))[k] && events@[k].wf(),
            failures@ == decode_failures(*filter, logs@.take(i as int)),
        decreases logs@.len() - i,
    {
        proof {
            assert(logs@.take(i + 1 as int).drop_last() =~= logs@.take(i as int));
            assert(logs@.take(i + 1 as int).last() == logs@[i as int]);
        }
        match classify_log(&logs[i], filter) {
            LogStep::Decoded(e) => {
                events.push(e);
            },
            LogStep::Ignored => {
            },
            LogStep::Malformed(err) => {
                failures.push(err);
            },
        }
        i = i + 1;
    }
    proof {
        assert(logs@.take(logs@.len() as int) =~= logs@);
    }
    (events, failures)
}

} // verus!
