//! The connection hub, as far as it decides anything: what one connection
//! does with what reaches it from either side.
//!
//! A connection has two halves. The writer takes envelopes from the broadcast
//! channel and sends them down the socket; the reader takes messages from the
//! socket and hands them to the dispatcher. When one half stops, the driver
//! stops the other.

use vstd::prelude::*;

verus! {

/// How many published envelopes the broadcast channel keeps for subscribers
/// that have not read them yet.
pub const REPLAY_CAPACITY: usize = 100;

/// What the broadcast channel gave the writer.
#[derive(Debug, PartialEq, Eq)]
pub enum Received {
    /// The next envelope, as text.
    Envelope(String),
    /// The subscriber fell behind, and this many envelopes are lost to it.
    Lagged { skipped: u64 },
    /// The channel is closed.
    Closed,
}

/// What the writer does next.
#[derive(Debug, PartialEq, Eq)]
pub enum Forward {
    /// Send the text down the socket.
    Send(String),
    /// Go on to the next envelope.
    Skip,
    /// Stop.
    Stop,
}

/// What the socket gave the reader.
#[derive(Debug, PartialEq, Eq)]
pub enum Inbound {
    /// A text message.
    Text(String),
    /// A message of any other kind, or an error.
    Other,
    /// The end of the stream.
    Ended,
}

/// What the reader does next.
#[derive(Debug, PartialEq, Eq)]
pub enum Intake {
    /// Schedule a dispatch of the message, and go on reading.
    Dispatch(String),
    /// Stop.
    Stop,
}

/// One half of a connection.
#[derive(Debug, Clone, Copy, PartialEq, Eq, Structural)]
pub enum Half {
    Writer,
    Reader,
}

/// What the writer does with what the channel gave it. Envelopes lost to a
/// slow subscriber are passed over; only a closed channel stops the writer.
pub open spec fn forward_of(received: Received) -> Forward {
    match received {
        Received::Envelope(text) => Forward::Send(text),
        Received::Lagged { .. } => Forward::Skip,
        Received::Closed => Forward::Stop,
    }
}

/// What the reader does with what the socket gave it. Only a text message
/// keeps the reader going.
pub open spec fn intake_of(inbound: Inbound) -> Intake {
    match inbound {
        Inbound::Text(text) => Intake::Dispatch(text),
        Inbound::Other => Intake::Stop,
        Inbound::Ended => Intake::Stop,
    }
}

/// The other half.
pub open spec fn sibling_of(half: Half) -> Half {
    match half {
        Half::Writer => Half::Reader,
        Half::Reader => Half::Writer,
    }
}

/// The envelopes of a run, each as the channel hands it over.
pub open spec fn handed_over(run: Seq<String>) -> Seq<Received> {
    run.map_values(|text: String| Received::Envelope(text))
}

/// What goes down the socket for a run of things received, while every send
/// succeeds: each envelope in its turn, up to the point where the channel
/// closes.
pub open spec fn forwarded(run: Seq<Received>) -> Seq<String>
    decreases run.len(),
{
    if run.len() == 0 {
        Seq::empty()
    } else {
        match forward_of(run.first()) {
            Forward::Send(text) => seq![text] + forwarded(run.drop_first()),
            Forward::Skip => forwarded(run.drop_first()),
            Forward::Stop => Seq::empty(),
        }
    }
}

/// A writer that is handed every envelope of a run sends every one of them,
/// unchanged and in the order it was handed them. So all writers that are
/// handed the same run send the same.
pub proof fn lemma_forwarded_in_order(run: Seq<String>)
    ensures
        forwarded(handed_over(run)) == run,
    decreases run.len(),
{
    if run.len() > 0 {
        lemma_forwarded_in_order(run.drop_first());
        assert(handed_over(run).drop_first() =~= handed_over(run.drop_first()));
        assert(seq![run.first()] + run.drop_first() =~= run);
    } else {
        assert(forwarded(handed_over(run)) =~= run);
    }
}

/// What the writer does with what the channel gave it.
pub fn forward(received: Received) -> (next: Forward)
    ensures
        next == forward_of(received),
{
    match received {
        Received::Envelope(text) => Forward::Send(text),
        Received::Lagged { .. } => Forward::Skip,
        Received::Closed => Forward::Stop,
    }
}

/// Whether the writer goes on after a send: it stops at the first send that
/// fails.
pub fn continues_after_send(delivered: bool) -> (goes_on: bool)
    ensures
        goes_on == delivered,
{
    delivered
}

/// What the reader does with what the socket gave it.
pub fn intake(inbound: Inbound) -> (next: Intake)
    ensures
        next == intake_of(inbound),
{
    match inbound {
        Inbound::Text(text) => Intake::Dispatch(text),
        Inbound::Other => Intake::Stop,
        Inbound::Ended => Intake::Stop,
    }
}

/// The half to cancel when `ended` has stopped.
pub fn sibling(ended: Half) -> (other: Half)
    ensures
        other == sibling_of(ended),
        other != ended,
{
    match ended {
        Half::Writer => Half::Reader,
        Half::Reader => Half::Writer,
    }
}

} // verus!
