//! Bus transactions and the rule that frames an operation as transactions.

use vstd::prelude::*;
use crate::command::Command;

verus! {

/// What one bus transaction carries, as a mathematical value.
pub enum Frame {
    /// One code, sent with the select line at "command".
    Command(u16),
    /// A run of words, sent with the select line at "data".
    Data(Seq<u16>),
}

/// One bus transaction, ready to be handed to the transport.
///
/// Every word travels as a 16-bit big-endian value. Which of the two kinds
/// a transaction is decides which of the transport's two primitives sends
/// it; the select line is the transport's business.
#[derive(Debug, PartialEq, Eq)]
pub enum Transaction {
    /// Send this code as a command.
    Command(u16),
    /// Send these words as data.
    Data(Vec<u16>),
}

impl View for Transaction {
    type V = Frame;

    open spec fn view(&self) -> Frame {
        match self {
            Transaction::Command(code) => Frame::Command(*code),
            Transaction::Data(words) => Frame::Data(words@),
        }
    }
}

impl DeepView for Transaction {
    type V = Frame;

    open spec fn deep_view(&self) -> Frame {
        self@
    }
}

/// The framing rule: an operation is one command transaction carrying its
/// code, followed by one data transaction carrying its parameters when it
/// has any.
pub open spec fn framed(code: u16, params: Seq<u16>) -> Seq<Frame> {
    if params.len() == 0 {
        seq![Frame::Command(code)]
    } else {
        seq![Frame::Command(code), Frame::Data(params)]
    }
}

/// Frames `command` with `params` as the transactions to put on the bus.
pub fn frame(command: Command, params: Vec<u16>) -> (plan: Vec<Transaction>)
    ensures
        plan.deep_view() == framed(command.code(), params@),
{
    let mut plan: Vec<Transaction> = Vec::new();
    plan.push(Transaction::Command(command.code()));
    if params.len() > 0 {
        plan.push(Transaction::Data(params));
    }
    assert(plan.deep_view() =~= framed(command.code(), params@));
    plan
}

/// A framed operation starts with its command transaction, and no other
/// command transaction follows.
pub proof fn framed_has_one_command(code: u16, params: Seq<u16>)
    ensures
        framed(code, params).len() >= 1,
        framed(code, params)[0] == Frame::Command(code),
        forall|i: int| 1 <= i < framed(code, params).len() ==> framed(code, params)[i] is Data,
{
}

} // verus!
