//! Adapters: what a relay asks, chunk by chunk, whether to forward the
//! chunk and whether the exchange in that direction has ended.

use vstd::prelude::*;

verus! {

/// `std::task::Context`, the context of the task that drives a relay; an
/// adapter that answers `Pending` registers its wake-up through it. Opaque
/// here.
#[verifier::external_type_specification]
#[verifier::external_body]
pub struct ExContext<'a>(std::task::Context<'a>);

/// What a relay does with a chunk it has read.
#[derive(Debug)]
pub enum AdapterAction<T> {
    /// Forward the chunk and go on reading.
    Write,
    /// Forward the chunk; the exchange in this direction ends with `T`.
    WriteAndEnd(T),
    /// Do not forward the chunk; the exchange in this direction ends with `T`.
    End(T),
}

/// An answer that is ready, or not yet.
pub enum AdapterPoll<T> {
    Ready(T),
    Pending,
}

/// Decides, for each chunk read from one side of a connection, what the
/// relay does with it. An adapter may change the chunk before it is
/// forwarded.
pub trait Adapter {
    /// What the exchange from the client yields when it ends.
    type IncomingOutput;
    /// What the exchange from the upstream server yields when it ends.
    type OutgoingOutput;
    /// What an adapter reports when it fails.
    type Error;

    /// How many bytes a relay reads at most at a time.
    fn buffer_size(&self) -> (size: usize)
        default_ensures
            size == 1024,
    {
        1024
    }

    /// The answer for a chunk read from the client; `cx` is the driving
    /// task's context, for an adapter that is not ready to answer yet.
    fn poll_handle_incoming(&mut self, cx: &mut std::task::Context<'_>, incoming: &mut Vec<u8>) -> (r: AdapterPoll<
        Result<AdapterAction<Self::IncomingOutput>, Self::Error>,
    >)
        default_ensures
            r == AdapterPoll::<Result<AdapterAction<Self::IncomingOutput>, Self::Error>>::Ready(
                Ok(AdapterAction::Write),
            ),
            final(incoming)@ == old(incoming)@,
    {
        AdapterPoll::Ready(Ok(AdapterAction::Write))
    }

    /// The answer for a chunk read from the upstream server; `cx` is the
    /// driving task's context, for an adapter that is not ready to answer
    /// yet.
    fn poll_handle_outgoing(&mut self, cx: &mut std::task::Context<'_>, outgoing: &mut Vec<u8>) -> (r: AdapterPoll<
        Result<AdapterAction<Self::OutgoingOutput>, Self::Error>,
    >)
        default_ensures
            r == AdapterPoll::<Result<AdapterAction<Self::OutgoingOutput>, Self::Error>>::Ready(
                Ok(AdapterAction::Write),
            ),
            final(outgoing)@ == old(outgoing)@,
    {
        AdapterPoll::Ready(Ok(AdapterAction::Write))
    }
}

/// Forwards every chunk unchanged, in both directions, and never ends an
/// exchange.
#[derive(Debug, Default)]
pub struct PassthroughAdapter;

impl Adapter for PassthroughAdapter {
    type IncomingOutput = ();
    type OutgoingOutput = ();
    type Error = ();
}

} // verus!
