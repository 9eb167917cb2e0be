//! What the Bulk Only Transport promises of its calls on a bus with transfers

use crate::transport::model::{BulkOnlyView, State, TransferCall};
use crate::usb::UsbError;
use vstd::prelude::*;

verus! {

/// What the bus replied to one call
#[allow(inconsistent_fields)]
pub enum Reply {
    /// The transfer was submitted
    Submitted { outcome: Result<(), UsbError> },
    /// The endpoint was polled
    Polled { outcome: Option<Result<usize, UsbError>> },
}

impl Reply {
    /// The bus took a transfer
    pub open spec fn is_taken(self) -> bool {
        self matches Reply::Submitted { outcome } && outcome is Ok
    }

    /// The transfer in flight was retired, with or without an error
    pub open spec fn is_retired(self) -> bool {
        self matches Reply::Polled { outcome } && outcome is Some
    }
}

/// The call on the bus that the data phase of `m` makes for a slice of `len` bytes
pub open spec fn next_call(m: BulkOnlyView, len: nat) -> TransferCall {
    if m.state == State::DataTransferToHost {
        m.write_call(len)
    } else {
        m.read_call(len)
    }
}

/// The state after the bus gave `reply`
pub open spec fn after_reply(m: BulkOnlyView, reply: Reply) -> BulkOnlyView {
    match reply {
        Reply::Submitted { outcome } => m.transfer_submitted(outcome).0,
        Reply::Polled { outcome } => m.transfer_polled(outcome).0,
    }
}

/// Whether `reply` is one to `call`
pub open spec fn fits(call: TransferCall, reply: Reply) -> bool {
    match reply {
        Reply::Submitted { .. } => call is Submit,
        Reply::Polled { .. } => call is Poll,
    }
}

/// The state after repeated calls to which the bus gave `replies`
pub open spec fn after_replies(m: BulkOnlyView, replies: Seq<Reply>) -> BulkOnlyView
    decreases replies.len(),
{
    if replies.len() == 0 {
        m
    } else {
        after_reply(after_replies(m, replies.drop_last()), replies.last())
    }
}

/// Whether repeated calls with a slice of `len` bytes can get `replies`
pub open spec fn are_replies(m: BulkOnlyView, len: nat, replies: Seq<Reply>) -> bool
    decreases replies.len(),
{
    replies.len() > 0 ==> {
        &&& are_replies(m, len, replies.drop_last())
        &&& fits(next_call(after_replies(m, replies.drop_last()), len), replies.last())
    }
}

/// The replies up to a point are replies, and so is the one at that point
proof fn replies_before(m: BulkOnlyView, len: nat, replies: Seq<Reply>, j: int)
    requires
        are_replies(m, len, replies),
        0 <= j < replies.len(),
    ensures
        are_replies(m, len, replies.take(j)),
        fits(next_call(after_replies(m, replies.take(j)), len), replies[j]),
        after_replies(m, replies.take(j + 1)) == after_reply(
            after_replies(m, replies.take(j)),
            replies[j],
        ),
    decreases replies.len(),
{
    assert(replies.take(j + 1).drop_last() =~= replies.take(j));
    if j == replies.len() - 1 {
        assert(replies.drop_last() =~= replies.take(j));
    } else {
        replies_before(m, len, replies.drop_last(), j);
        assert(replies.drop_last().take(j) =~= replies.take(j));
        assert(replies.drop_last().take(j + 1) =~= replies.take(j + 1));
    }
}

/// A transfer that the bus took stays in flight as long as no poll retires it
proof fn in_flight_until_retired(
    m: BulkOnlyView,
    len: nat,
    replies: Seq<Reply>,
    i: int,
    j: int,
)
    requires
        are_replies(m, len, replies),
        0 <= i < j <= replies.len(),
        replies[i].is_taken(),
        forall|k: int| i < k < j ==> !(#[trigger] replies[k]).is_retired(),
    ensures
        after_replies(m, replies.take(j)).transfer_in_flight,
    decreases j,
{
    replies_before(m, len, replies, j - 1);
    if i < j - 1 {
        in_flight_until_retired(m, len, replies, i, j - 1);
        assert(!replies[j - 1].is_retired());
    }
}

/// Repeated calls submit a transfer once: after the bus took it, every call polls
/// the endpoint, and nothing is submitted again until a poll retired the transfer.
pub proof fn nothing_is_submitted_before_retirement(
    m: BulkOnlyView,
    len: nat,
    replies: Seq<Reply>,
    i: int,
    j: int,
)
    requires
        m.inv(),
        are_replies(m, len, replies),
        0 <= i < j < replies.len(),
        replies[i].is_taken(),
        replies[j] is Submitted,
    ensures
        exists|k: int| i < k < j && (#[trigger] replies[k]).is_retired(),
{
    if forall|k: int| i < k < j ==> !(#[trigger] replies[k]).is_retired() {
        in_flight_until_retired(m, len, replies, i, j);
        replies_before(m, len, replies, j);
    }
}

/// Repeated calls with one slice: the first submits as much of it as the host expects,
/// on the endpoint of the data phase. While the bus has not completed the transfer,
/// each of the next polls that endpoint, gives [`UsbError::WouldBlock`] and changes
/// nothing.
pub proof fn calls_wait_for_the_transfer(m: BulkOnlyView, len: nat, replies: Seq<Reply>)
    requires
        m.inv(),
        m.state == State::DataTransferToHost || m.state == State::DataTransferFromHost,
        !m.transfer_in_flight,
        replies.len() > 0,
        replies[0] == (Reply::Submitted { outcome: Ok(()) }),
        forall|k: int| 0 < k < replies.len() ==> !(#[trigger] replies[k]).is_retired(),
        are_replies(m, len, replies),
    ensures
        ({
            let ep = if m.state == State::DataTransferToHost {
                m.in_ep
            } else {
                m.out_ep
            };
            let waiting = m.transfer_submitted(Ok(())).0;
            &&& next_call(m, len) == (TransferCall::Submit { ep, len: m.expected_of(len) })
            &&& after_replies(m, replies) == waiting
            &&& waiting.residue() == m.residue()
            &&& next_call(waiting, len) == (TransferCall::Poll { ep })
            &&& waiting.transfer_polled(None) == (waiting, m.transfer_submitted(Ok(())).1)
        }),
    decreases replies.len(),
{
    replies_before(m, len, replies, replies.len() - 1);
    assert(replies.take(replies.len() as int) =~= replies);
    assert(replies.take(replies.len() - 1) =~= replies.drop_last());
    if replies.len() > 1 {
        let init = replies.drop_last();
        assert forall|k: int| 0 < k < init.len() implies !(#[trigger] init[k]).is_retired() by {
            assert(init[k] == replies[k]);
        }
        calls_wait_for_the_transfer(m, len, init);
        assert(!replies[replies.len() - 1].is_retired());
    }
}

} // verus!
