//! The sweep executor's verified core: the amount policy, the ERC20 call
//! encodings, and the plan handed to the signing and submission layer.

use vstd::prelude::*;
use crate::words::Word;
use crate::words::Address;
use crate::words::address_topic;
use crate::words::be_val;
use crate::words::append_bytes;
use crate::logs::TransferEvent;

verus! {

/// How the amount of a sweep is chosen.
#[derive(Clone, Copy, Debug, PartialEq, Eq, Structural)]
pub enum SweepPolicy {
    /// The decoded event's value, unmodified.
    EmittedValue,
    /// The larger of the event's value and the recipient's balance at
    /// call time, compensating for inbound transfers not yet observed.
    BalanceReconciled,
}

/// How strictly a submitted sweep is awaited.
#[derive(Clone, Copy, Debug, PartialEq, Eq, Structural)]
pub enum ConfirmationPolicy {
    /// A provisional transaction hash suffices.
    Provisional,
    /// A full receipt is awaited.
    Finalized,
}

/// The numerically larger of two byte strings of equal length.
pub open spec fn max_word(a: Seq<u8>, b: Seq<u8>) -> Seq<u8> {
    if be_val(a) >= be_val(b) {
        a
    } else {
        b
    }
}

/// The amount a sweep moves. Under `EmittedValue` it is the event's value
/// exactly; under `BalanceReconciled` it is the maximum of the event's
/// value and the balance queried at call time.
pub fn sweep_amount(policy: SweepPolicy, value: &Word, balance: &Word) -> (r: Word)
    requires
        value.wf(),
        balance.wf(),
    ensures
        r.wf(),
        policy is EmittedValue ==> r@ == value@,
        policy is BalanceReconciled ==> r@ == max_word(value@, balance@),
        policy is BalanceReconciled ==> r.val() == if value.val() >= balance.val() {
            value.val()
        } else {
            balance.val()
        },
{
    match policy {
        SweepPolicy::EmittedValue => value.duplicate(),
        SweepPolicy::BalanceReconciled => {
            if value.ge(balance) {
                value.duplicate()
            } else {
                balance.duplicate()
            }
        },
    }
}

/// Four-byte selector of the ERC20 function `transfer(address,uint256)`.
pub open spec fn transfer_selector() -> Seq<u8> {
    seq![0xa9u8, 0x05u8, 0x9cu8, 0xbbu8]
}

/// Four-byte selector of the ERC20 function `balanceOf(address)`.
pub open spec fn balance_of_selector() -> Seq<u8> {
    seq![0x70u8, 0xa0u8, 0x82u8, 0x31u8]
}

/// Calldata of `transfer(to, amount)`: the selector, the address padded
/// to a word, and the 32-byte amount.
pub open spec fn transfer_calldata(to: Seq<u8>, amount: Seq<u8>) -> Seq<u8> {
    transfer_selector() + address_topic(to) + amount
}

/// Calldata of `balanceOf(owner)`: the selector and the padded address.
pub open spec fn balance_of_calldata(owner: Seq<u8>) -> Seq<u8> {
    balance_of_selector() + address_topic(owner)
}

/// Encodes `transfer(to, amount)` per the standard ERC20 ABI.
pub fn encode_transfer_call(to: &Address, amount: &Word) -> (r: Vec<u8>)
    requires
        to.wf(),
        amount.wf(),
    ensures
        r@ == transfer_calldata(to@, amount@),
        r@.len() == 68,
{
    let mut out: Vec<u8> = Vec::new();
    out.push(0xa9u8);
    out.push(0x05u8);
    out.push(0x9cu8);
    out.push(0xbbu8);
    assert(out@ =~= transfer_selector());
    let topic = to.to_topic();
    append_bytes(&mut out, topic.as_bytes());
    append_bytes(&mut out, amount.as_bytes());
    assert(out@ =~= transfer_calldata(to@, amount@));
    out
}

/// Encodes `balanceOf(owner)` per the standard ERC20 ABI.
pub fn encode_balance_of_call(owner: &Address) -> (r: Vec<u8>)
    requires
        owner.wf(),
    ensures
        r@ == balance_of_calldata(owner@),
        r@.len() == 36,
{
    let mut out: Vec<u8> = Vec::new();
    out.push(0x70u8);
    out.push(0xa0u8);
    out.push(0x82u8);
    out.push(0x31u8);
    assert(out@ =~= balance_of_selector());
    let topic = owner.to_topic();
    append_bytes(&mut out, topic.as_bytes());
    assert(out@ =~= balance_of_calldata(owner@));
    out
}

/// One sweep, ready for the signing and submission layer: the token
/// contract to call, the calldata of `transfer(admin, amount)`, the
/// amount itself, and how strictly to await confirmation.
#[derive(Debug)]
pub struct SweepPlan {
    pub token_contract: Address,
    pub call_data: Vec<u8>,
    pub amount: Word,
    pub confirmation: ConfirmationPolicy,
}

impl SweepPlan {
    pub open spec fn wf(self) -> bool {
        self.token_contract.wf() && self.amount.wf()
    }
}

/// Builds the sweep for a decoded event: chooses the amount by policy
/// and encodes `transfer(admin, amount)` addressed to the contract that
/// emitted the event. Under `EmittedValue` the balance argument is
/// ignored.
pub fn build_sweep(
    event: &TransferEvent,
    admin: &Address,
    policy: SweepPolicy,
    confirmation: ConfirmationPolicy,
    balance: &Word,
) -> (r: SweepPlan)
    requires
        event.wf(),
        admin.wf(),
        balance.wf(),
    ensures
        r.wf(),
        r.token_contract@ == event.token_contract@,
        r.confirmation == confirmation,
        policy is EmittedValue ==> r.amount@ == event.value@,
        policy is BalanceReconciled ==> r.amount@ == max_word(event.value@, balance@),
        r.call_data@ == transfer_calldata(admin@, r.amount@),
{
    let amount = sweep_amount(policy, &event.value, balance);
    let call_data = encode_transfer_call(admin, &amount);
    SweepPlan { token_contract: event.token_contract.duplicate(), call_data, amount, confirmation }
}

} // verus!
