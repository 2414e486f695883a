//! The relay of one direction of a proxied connection: it reads a chunk
//! from one side, asks the adapter about it, writes it to the other side,
//! and starts over until the adapter ends the exchange.
//!
//! The relay is a state machine: each step takes what the step's outside
//! work (a read, the adapter's answer, a write) reported and says what
//! comes next. The reads, writes and adapter calls are made by its driver.

use vstd::prelude::*;
use crate::adapter::{AdapterAction, AdapterPoll};

verus! {

/// `std::io::Error`, opaque here.
#[verifier::external_type_specification]
#[verifier::external_body]
pub struct ExIoError(std::io::Error);

/// Why a relay failed: a socket failed, or the adapter did.
#[derive(Debug)]
pub enum ProxyError<T> {
    Io(std::io::Error),
    Custom(T),
}

impl<T> From<std::io::Error> for ProxyError<T> {
    fn from(e: std::io::Error) -> (r: Self) {
        ProxyError::Io(e)
    }
}

impl<T> vstd::std_specs::convert::FromSpecImpl<std::io::Error> for ProxyError<T> {
    open spec fn obeys_from_spec() -> bool {
        true
    }

    open spec fn from_spec(v: std::io::Error) -> Self {
        ProxyError::Io(v)
    }
}

/// Which way a relay carries bytes.
#[derive(PartialEq, Eq, Structural, Clone, Copy, Debug)]
pub enum PipeType {
    /// From the client to the upstream server.
    Incoming,
    /// From the upstream server to the client.
    Outgoing,
}

/// Where a relay stands.
pub enum PipeState<I, O, E> {
    /// About to read a chunk.
    Read,
    /// Holding a chunk for the adapter.
    Handle(Vec<u8>),
    /// Holding a chunk and the adapter's answer about it: in the first slot
    /// for a relay from the client, in the second for one from the server.
    /// A slot that was used is emptied.
    Write(Vec<u8>, Option<Result<AdapterAction<I>, E>>, Option<Result<AdapterAction<O>, E>>),
}

/// What a socket operation reported.
pub enum IoPoll<T> {
    Ready(T),
    NotReady,
    Failed(std::io::Error),
}

/// What one step of a relay yields: not done yet (and whether the driver
/// should poll again at once), or done with the exchange's outcome.
pub enum PipePoll<I, O, E> {
    Pending { wake: bool },
    Ready(Result<(Option<I>, Option<O>), ProxyError<E>>),
}

/// What the adapter's answer asks of the write step: write the chunk and
/// then end with `then` (or read on, if `then` is `None`), or end at once.
pub enum WriteStep<I, O, E> {
    Send { then: Option<(Option<I>, Option<O>)> },
    Finish(PipePoll<I, O, E>),
}

/// The outside work a relay's state asks for next.
#[derive(PartialEq, Eq, Structural, Clone, Copy, Debug)]
pub enum PipeAction {
    /// Read a chunk from the source side.
    Read,
    /// Ask the adapter about the held chunk, as one from the client.
    HandleIncoming,
    /// Ask the adapter about the held chunk, as one from the server.
    HandleOutgoing,
    /// Act on the adapter's answer, writing the chunk if it asks to.
    Write,
    /// None: the answer was used up by a write the socket was not ready
    /// for, and the relay cannot go on.
    Stalled,
}

/// The outside work a relay in direction `kind` and state `state` asks for.
pub open spec fn action_of<I, O, E>(kind: PipeType, state: PipeState<I, O, E>) -> PipeAction {
    match state {
        PipeState::Read => PipeAction::Read,
        PipeState::Handle(_) => match kind {
            PipeType::Incoming => PipeAction::HandleIncoming,
            PipeType::Outgoing => PipeAction::HandleOutgoing,
        },
        PipeState::Write(_, a, b) => match kind {
            PipeType::Incoming => if a is Some {
                PipeAction::Write
            } else {
                PipeAction::Stalled
            },
            PipeType::Outgoing => if b is Some {
                PipeAction::Write
            } else {
                PipeAction::Stalled
            },
        },
    }
}

/// One direction of a proxied connection.
pub struct Pipe<I, O, E> {
    pub kind: PipeType,
    pub state: PipeState<I, O, E>,
}

/// After the read of a relay about to read.
pub open spec fn read_step<I, O, E>(outcome: IoPoll<Vec<u8>>) -> (PipeState<I, O, E>, PipePoll<I, O, E>) {
    match outcome {
        IoPoll::Ready(chunk) => (PipeState::Handle(chunk), PipePoll::Pending { wake: true }),
        IoPoll::NotReady => (PipeState::Read, PipePoll::Pending { wake: false }),
        IoPoll::Failed(e) => (PipeState::Read, PipePoll::Ready(Err(ProxyError::Io(e)))),
    }
}

/// What an answer for a chunk from the client asks of the write step.
pub open spec fn incoming_write_step<I, O, E>(answer: Result<AdapterAction<I>, E>) -> WriteStep<I, O, E> {
    match answer {
        Ok(AdapterAction::WriteAndEnd(v)) => WriteStep::Send { then: Some((Some(v), None)) },
        Ok(AdapterAction::Write) => WriteStep::Send { then: None },
        Ok(AdapterAction::End(v)) => WriteStep::Finish(PipePoll::Ready(Ok((Some(v), None)))),
        Err(e) => WriteStep::Finish(PipePoll::Ready(Err(ProxyError::Custom(e)))),
    }
}

/// What an answer for a chunk from the server asks of the write step.
pub open spec fn outgoing_write_step<I, O, E>(answer: Result<AdapterAction<O>, E>) -> WriteStep<I, O, E> {
    match answer {
        Ok(AdapterAction::WriteAndEnd(v)) => WriteStep::Send { then: Some((None, Some(v))) },
        Ok(AdapterAction::Write) => WriteStep::Send { then: None },
        Ok(AdapterAction::End(v)) => WriteStep::Finish(PipePoll::Ready(Ok((None, Some(v))))),
        Err(e) => WriteStep::Finish(PipePoll::Ready(Err(ProxyError::Custom(e)))),
    }
}

/// The outcomes an exchange in direction `kind` can end with hold a value
/// for that direction and none for the other.
pub open spec fn well_placed<I, O>(kind: PipeType, v: (Option<I>, Option<O>)) -> bool {
    match kind {
        PipeType::Incoming => v.0 is Some && v.1 is None,
        PipeType::Outgoing => v.0 is None && v.1 is Some,
    }
}

/// After the write of a relay that holds a chunk, where the answer asked
/// to end with `then` once the chunk is written.
pub open spec fn write_done_step<I, O, E>(
    state: PipeState<I, O, E>,
    then: Option<(Option<I>, Option<O>)>,
    outcome: IoPoll<usize>,
) -> (PipeState<I, O, E>, PipePoll<I, O, E>) {
    match outcome {
        IoPoll::Failed(e) => (state, PipePoll::Ready(Err(ProxyError::Io(e)))),
        IoPoll::NotReady => (state, PipePoll::Pending { wake: false }),
        IoPoll::Ready(_) => match then {
            Some(v) => (state, PipePoll::Ready(Ok(v))),
            None => (PipeState::Read, PipePoll::Pending { wake: true }),
        },
    }
}

impl<I, O, E> Pipe<I, O, E> {
    /// A relay in direction `kind`, about to read.
    pub fn new(kind: PipeType) -> (pipe: Self)
        ensures
            pipe.kind == kind,
            pipe.state is Read,
    {
        Pipe { kind, state: PipeState::Read }
    }

    /// The outside work the relay asks for next. Each step below may be
    /// taken exactly when this names it.
    pub fn next_action(&self) -> (action: PipeAction)
        ensures
            action == action_of(self.kind, self.state),
    {
        match &self.state {
            PipeState::Read => PipeAction::Read,
            PipeState::Handle(_) => match self.kind {
                PipeType::Incoming => PipeAction::HandleIncoming,
                PipeType::Outgoing => PipeAction::HandleOutgoing,
            },
            PipeState::Write(_, a, b) => match self.kind {
                PipeType::Incoming => if a.is_some() {
                    PipeAction::Write
                } else {
                    PipeAction::Stalled
                },
                PipeType::Outgoing => if b.is_some() {
                    PipeAction::Write
                } else {
                    PipeAction::Stalled
                },
            },
        }
    }

    /// The step after the read: a chunk goes to the adapter, a socket not
    /// ready leaves the relay as it was, and a failed socket ends the
    /// exchange with that error.
    pub fn after_read(&mut self, outcome: IoPoll<Vec<u8>>) -> (r: PipePoll<I, O, E>)
        requires
            old(self).state is Read,
        ensures
            final(self).kind == old(self).kind,
            (final(self).state, r) == read_step::<I, O, E>(outcome),
            outcome matches IoPoll::Ready(c) ==> final(self).state == PipeState::<I, O, E>::Handle(c) && r == (PipePoll::<I, O, E>::Pending { wake: true }),
            outcome is NotReady ==> final(self).state is Read && r == (PipePoll::<I, O, E>::Pending { wake: false }),
            outcome matches IoPoll::Failed(e) ==> final(self).state is Read && r == PipePoll::<I, O, E>::Ready(Err(ProxyError::Io(e))),
    {
        match outcome {
            IoPoll::Ready(chunk) => {
                self.state = PipeState::Handle(chunk);
                PipePoll::Pending { wake: true }
            },
            IoPoll::NotReady => PipePoll::Pending { wake: false },
            IoPoll::Failed(e) => PipePoll::Ready(Err(ProxyError::Io(e))),
        }
    }

    /// The step after the adapter answered about a chunk from the client:
    /// not yet ready leaves the relay as it was; an answer is kept, with
    /// the chunk as the adapter left it, for the write step.
    pub fn after_handle_incoming(&mut self, answer: AdapterPoll<Result<AdapterAction<I>, E>>) -> (r: PipePoll<I, O, E>)
        requires
            old(self).kind is Incoming,
            old(self).state is Handle,
        ensures
            final(self).kind == old(self).kind,
            match answer {
                AdapterPoll::Pending => final(self).state == old(self).state && r == PipePoll::<I, O, E>::Pending { wake: false },
                AdapterPoll::Ready(a) => final(self).state == PipeState::<I, O, E>::Write(old(self).state->Handle_0, Some(a), None)
                    && r == PipePoll::<I, O, E>::Pending { wake: true },
            },
    {
        match answer {
            AdapterPoll::Pending => PipePoll::Pending { wake: false },
            AdapterPoll::Ready(a) => {
                let mut st = PipeState::Read;
                std::mem::swap(&mut st, &mut self.state);
                match st {
                    PipeState::Handle(chunk) => {
                        self.state = PipeState::Write(chunk, Some(a), None);
                    },
                    _ => {},
                }
                PipePoll::Pending { wake: true }
            },
        }
    }

    /// The step after the adapter answered about a chunk from the server:
    /// not yet ready leaves the relay as it was; an answer is kept, with
    /// the chunk as the adapter left it, for the write step.
    pub fn after_handle_outgoing(&mut self, answer: AdapterPoll<Result<AdapterAction<O>, E>>) -> (r: PipePoll<I, O, E>)
        requires
            old(self).kind is Outgoing,
            old(self).state is Handle,
        ensures
            final(self).kind == old(self).kind,
            match answer {
                AdapterPoll::Pending => final(self).state == old(self).state && r == PipePoll::<I, O, E>::Pending { wake: false },
                AdapterPoll::Ready(a) => final(self).state == PipeState::<I, O, E>::Write(old(self).state->Handle_0, None, Some(a))
                    && r == PipePoll::<I, O, E>::Pending { wake: true },
            },
    {
        match answer {
            AdapterPoll::Pending => PipePoll::Pending { wake: false },
            AdapterPoll::Ready(a) => {
                let mut st = PipeState::Read;
                std::mem::swap(&mut st, &mut self.state);
                match st {
                    PipeState::Handle(chunk) => {
                        self.state = PipeState::Write(chunk, None, Some(a));
                    },
                    _ => {},
                }
                PipePoll::Pending { wake: true }
            },
        }
    }

    /// Takes the adapter's answer out of the write step (emptying its slot)
    /// and says what it asks: write the chunk and then end or read on, or
    /// end at once without writing, with the adapter's value or failure.
    pub fn begin_write(&mut self) -> (step: WriteStep<I, O, E>)
        requires
            old(self).state is Write,
            old(self).kind is Incoming ==> old(self).state->Write_1 is Some,
            old(self).kind is Outgoing ==> old(self).state->Write_2 is Some,
        ensures
            final(self).kind == old(self).kind,
            final(self).state is Write,
            final(self).state->Write_0 == old(self).state->Write_0,
            old(self).kind is Incoming ==> final(self).state->Write_1 is None
                && final(self).state->Write_2 == old(self).state->Write_2
                && step == incoming_write_step::<I, O, E>(old(self).state->Write_1->Some_0),
            old(self).kind is Outgoing ==> final(self).state->Write_2 is None
                && final(self).state->Write_1 == old(self).state->Write_1
                && step == outgoing_write_step::<I, O, E>(old(self).state->Write_2->Some_0),
            old(self).kind is Incoming ==> (old(self).state->Write_1 matches Some(Err(e)) ==> step == WriteStep::<I, O, E>::Finish(PipePoll::Ready(Err(ProxyError::Custom(e))))),
            old(self).kind is Outgoing ==> (old(self).state->Write_2 matches Some(Err(e)) ==> step == WriteStep::<I, O, E>::Finish(PipePoll::Ready(Err(ProxyError::Custom(e))))),
            old(self).kind is Incoming ==> (old(self).state->Write_1 matches Some(Ok(AdapterAction::End(v))) ==> step == WriteStep::<I, O, E>::Finish(PipePoll::Ready(Ok((Some(v), None))))),
            old(self).kind is Outgoing ==> (old(self).state->Write_2 matches Some(Ok(AdapterAction::End(v))) ==> step == WriteStep::<I, O, E>::Finish(PipePoll::Ready(Ok((None, Some(v)))))),
            old(self).kind is Incoming ==> (old(self).state->Write_1 matches Some(Ok(AdapterAction::WriteAndEnd(v))) ==> step == (WriteStep::<I, O, E>::Send { then: Some((Some(v), None)) })),
            old(self).kind is Outgoing ==> (old(self).state->Write_2 matches Some(Ok(AdapterAction::WriteAndEnd(v))) ==> step == (WriteStep::<I, O, E>::Send { then: Some((None, Some(v))) })),
            old(self).kind is Incoming && old(self).state->Write_1 == Some(Ok::<AdapterAction<I>, E>(AdapterAction::Write)) ==> step == (WriteStep::<I, O, E>::Send { then: None }),
            old(self).kind is Outgoing && old(self).state->Write_2 == Some(Ok::<AdapterAction<O>, E>(AdapterAction::Write)) ==> step == (WriteStep::<I, O, E>::Send { then: None }),
            step matches WriteStep::Send { then: Some(v) } ==> well_placed(old(self).kind, v),
            step matches WriteStep::Finish(PipePoll::Ready(Ok(v))) ==> well_placed(old(self).kind, v),
    {
        let mut st = PipeState::Read;
        std::mem::swap(&mut st, &mut self.state);
        match st {
            PipeState::Write(chunk, a, b) => {
                match self.kind {
                    PipeType::Incoming => {
                        self.state = PipeState::Write(chunk, None, b);
                        match a {
                            Some(Ok(AdapterAction::WriteAndEnd(v))) => WriteStep::Send { then: Some((Some(v), None)) },
                            Some(Ok(AdapterAction::Write)) => WriteStep::Send { then: None },
                            Some(Ok(AdapterAction::End(v))) => WriteStep::Finish(PipePoll::Ready(Ok((Some(v), None)))),
                            Some(Err(e)) => WriteStep::Finish(PipePoll::Ready(Err(ProxyError::Custom(e)))),
                            None => WriteStep::Send { then: None },
                        }
                    },
                    PipeType::Outgoing => {
                        self.state = PipeState::Write(chunk, a, None);
                        match b {
                            Some(Ok(AdapterAction::WriteAndEnd(v))) => WriteStep::Send { then: Some((None, Some(v))) },
                            Some(Ok(AdapterAction::Write)) => WriteStep::Send { then: None },
                            Some(Ok(AdapterAction::End(v))) => WriteStep::Finish(PipePoll::Ready(Ok((None, Some(v))))),
                            Some(Err(e)) => WriteStep::Finish(PipePoll::Ready(Err(ProxyError::Custom(e)))),
                            None => WriteStep::Send { then: None },
                        }
                    },
                }
            },
            _ => WriteStep::Send { then: None },
        }
    }

    /// The step after the chunk was written: a failed socket ends the
    /// exchange with that error, a socket not ready leaves the relay as it
    /// was, and a written chunk ends the exchange with `then` or, without
    /// one, sends the relay back to reading.
    pub fn after_write(&mut self, then: Option<(Option<I>, Option<O>)>, outcome: IoPoll<usize>) -> (r: PipePoll<I, O, E>)
        requires
            old(self).state is Write,
        ensures
            final(self).kind == old(self).kind,
            (final(self).state, r) == write_done_step(old(self).state, then, outcome),
            outcome matches IoPoll::Failed(e) ==> final(self).state == old(self).state && r == PipePoll::<I, O, E>::Ready(Err(ProxyError::Io(e))),
            outcome is NotReady ==> final(self).state == old(self).state && r == (PipePoll::<I, O, E>::Pending { wake: false }),
            outcome is Ready ==> (then matches Some(v) ==> final(self).state == old(self).state && r == PipePoll::<I, O, E>::Ready(Ok(v))),
            outcome is Ready && then is None ==> final(self).state is Read && r == (PipePoll::<I, O, E>::Pending { wake: true }),
            r matches PipePoll::Ready(Ok(v)) ==> then == Some(v),
    {
        match outcome {
            IoPoll::Failed(e) => PipePoll::Ready(Err(ProxyError::Io(e))),
            IoPoll::NotReady => PipePoll::Pending { wake: false },
            IoPoll::Ready(_) => match then {
                Some(v) => PipePoll::Ready(Ok(v)),
                None => {
                    self.state = PipeState::Read;
                    PipePoll::Pending { wake: true }
                },
            },
        }
    }
}

/// The work a relay asks for is exactly the step it can take: reading in
/// the read phase, the adapter of its own direction in the handle phase,
/// and the write step while the answer is still held.
pub proof fn law_action_enables_step<I, O, E>(kind: PipeType, state: PipeState<I, O, E>)
    ensures
        (action_of(kind, state) == PipeAction::Read) <==> (state is Read),
        (action_of(kind, state) == PipeAction::HandleIncoming) <==> (state is Handle && kind is Incoming),
        (action_of(kind, state) == PipeAction::HandleOutgoing) <==> (state is Handle && kind is Outgoing),
        (action_of(kind, state) == PipeAction::Write) <==> ({
            &&& state is Write
            &&& kind is Incoming ==> state->Write_1 is Some
            &&& kind is Outgoing ==> state->Write_2 is Some
        }),
{
}

/// A relay goes round its phases in one order: a read leads to handling
/// the chunk (or stays on reading), and a write leads back to reading (or
/// stays on writing while the socket is not ready or the exchange ends).
pub proof fn law_relay_cycle<I, O, E>(
    read: IoPoll<Vec<u8>>,
    state: PipeState<I, O, E>,
    then: Option<(Option<I>, Option<O>)>,
    written: IoPoll<usize>,
)
    requires
        state is Write,
    ensures
        read_step::<I, O, E>(read).0 is Read || read_step::<I, O, E>(read).0 is Handle,
        read_step::<I, O, E>(read).0 is Handle <==> read is Ready,
        write_done_step(state, then, written).0 == state || write_done_step(state, then, written).0 is Read,
        write_done_step(state, then, written).0 is Read <==> (written is Ready && then is None),
{
}

/// The relay from the client ends an exchange only with the request's
/// value, and the relay from the server only with the response's.
pub proof fn law_outcome_placed<I, O, E>(
    answer_in: Result<AdapterAction<I>, E>,
    answer_out: Result<AdapterAction<O>, E>,
    state: PipeState<I, O, E>,
    written: IoPoll<usize>,
)
    ensures
        incoming_write_step::<I, O, E>(answer_in) matches WriteStep::Finish(PipePoll::Ready(Ok(v)))
            ==> well_placed(PipeType::Incoming, v),
        incoming_write_step::<I, O, E>(answer_in) matches WriteStep::Send { then } ==> (write_done_step(
            state,
            then,
            written,
        ).1 matches PipePoll::Ready(Ok(v)) ==> well_placed(PipeType::Incoming, v)),
        outgoing_write_step::<I, O, E>(answer_out) matches WriteStep::Finish(PipePoll::Ready(Ok(v)))
            ==> well_placed(PipeType::Outgoing, v),
        outgoing_write_step::<I, O, E>(answer_out) matches WriteStep::Send { then } ==> (write_done_step(
            state,
            then,
            written,
        ).1 matches PipePoll::Ready(Ok(v)) ==> well_placed(PipeType::Outgoing, v)),
{
}

/// The outcomes of the two relays of a connection always make an exchange:
/// `exchange_outcome` accepts them.
pub proof fn law_exchange_defined<I, O>(request: (Option<I>, Option<O>), response: (Option<I>, Option<O>))
    requires
        well_placed(PipeType::Incoming, request),
        well_placed(PipeType::Outgoing, response),
    ensures
        request.0 is Some,
        response.1 is Some,
{
}

/// Only the adapter's `End` and `WriteAndEnd` answers end an exchange with
/// a value, and only `End` does so without forwarding the chunk; `Write`
/// forwards it and reads on; a failed adapter ends the exchange with its
/// error.
pub proof fn law_answers<I, O, E>(answer: Result<AdapterAction<I>, E>)
    ensures
        (incoming_write_step::<I, O, E>(answer) is Finish) <==> ((answer matches Ok(AdapterAction::End(_))) || (answer is Err)),
        (incoming_write_step::<I, O, E>(answer) == (WriteStep::<I, O, E>::Send { then: None })) <==> (answer == Ok::<AdapterAction<I>, E>(AdapterAction::Write)),
        answer matches Err(e) ==> incoming_write_step::<I, O, E>(answer) == WriteStep::<I, O, E>::Finish(PipePoll::Ready(Err(ProxyError::Custom(e)))),
        answer matches Ok(AdapterAction::End(v)) ==> incoming_write_step::<I, O, E>(answer) == WriteStep::<I, O, E>::Finish(PipePoll::Ready(Ok((Some(v), None)))),
        answer matches Ok(AdapterAction::WriteAndEnd(v)) ==> incoming_write_step::<I, O, E>(answer) == (WriteStep::<I, O, E>::Send { then: Some((Some(v), None)) }),
{
}

/// The same for the relay from the server: only `End` and a failure end
/// the exchange at once, a failure with the adapter's own error, and
/// `WriteAndEnd` ends it with the response's value once the chunk is
/// written.
pub proof fn law_answers_outgoing<I, O, E>(answer: Result<AdapterAction<O>, E>)
    ensures
        (outgoing_write_step::<I, O, E>(answer) is Finish) <==> ((answer matches Ok(AdapterAction::End(_))) || (answer is Err)),
        (outgoing_write_step::<I, O, E>(answer) == (WriteStep::<I, O, E>::Send { then: None })) <==> (answer == Ok::<AdapterAction<O>, E>(AdapterAction::Write)),
        answer matches Err(e) ==> outgoing_write_step::<I, O, E>(answer) == WriteStep::<I, O, E>::Finish(PipePoll::Ready(Err(ProxyError::Custom(e)))),
        answer matches Ok(AdapterAction::End(v)) ==> outgoing_write_step::<I, O, E>(answer) == WriteStep::<I, O, E>::Finish(PipePoll::Ready(Ok((None, Some(v))))),
        answer matches Ok(AdapterAction::WriteAndEnd(v)) ==> outgoing_write_step::<I, O, E>(answer) == (WriteStep::<I, O, E>::Send { then: Some((None, Some(v))) }),
{
}

/// What happens to a relay between two of its steps' inputs: a socket
/// read, the adapter changing the held chunk, the adapter's answer, or a
/// socket write.
pub enum RelayEvent<I, O, E> {
    Read(IoPoll<Vec<u8>>),
    Edit(Vec<u8>),
    AnswerIncoming(AdapterPoll<Result<AdapterAction<I>, E>>),
    AnswerOutgoing(AdapterPoll<Result<AdapterAction<O>, E>>),
    Write(IoPoll<usize>),
}

/// Where a run of a relay got to: its state, the chunks handed to writes
/// that completed, the chunks the adapter answered to forward (as it left
/// them), and whether the relay yielded its outcome.
pub struct RelayRun<I, O, E> {
    pub state: PipeState<I, O, E>,
    pub written: Seq<Seq<u8>>,
    pub answered: Seq<Seq<u8>>,
    pub finished: bool,
}

/// The answer asks to forward the chunk.
pub open spec fn forwards<T, E>(answer: Option<Result<AdapterAction<T>, E>>) -> bool {
    ||| answer matches Some(Ok(AdapterAction::Write))
    ||| answer matches Some(Ok(AdapterAction::WriteAndEnd(_)))
}

/// The chunk a relay holds with an answer to forward it, not yet written.
pub open spec fn pending<I, O, E>(kind: PipeType, state: PipeState<I, O, E>) -> Seq<Seq<u8>> {
    match state {
        PipeState::Write(c, a, b) => if (kind is Incoming && forwards(a)) || (kind is Outgoing && forwards(b)) {
            seq![c@]
        } else {
            Seq::empty()
        },
        _ => Seq::empty(),
    }
}

/// A run in which nothing happened.
pub open spec fn idle<I, O, E>(state: PipeState<I, O, E>) -> RelayRun<I, O, E> {
    RelayRun { state, written: Seq::empty(), answered: Seq::empty(), finished: false }
}

/// The write step, with the answer `answer` taken out and the state left
/// as `taken`.
pub open spec fn write_event<I, O, E>(
    chunk: Vec<u8>,
    taken: PipeState<I, O, E>,
    step: WriteStep<I, O, E>,
    outcome: IoPoll<usize>,
) -> RelayRun<I, O, E> {
    match step {
        WriteStep::Finish(p) => RelayRun { finished: p is Ready, ..idle(taken) },
        WriteStep::Send { then } => {
            let (s, p) = write_done_step(taken, then, outcome);
            RelayRun {
                state: s,
                written: if outcome is Ready {
                    seq![chunk@]
                } else {
                    Seq::empty()
                },
                answered: Seq::empty(),
                finished: p is Ready,
            }
        },
    }
}

/// One event of a relay in direction `kind`, taken by the step that its
/// state allows (an event no step allows changes nothing).
pub open spec fn relay_step<I, O, E>(kind: PipeType, state: PipeState<I, O, E>, event: RelayEvent<I, O, E>) -> RelayRun<I, O, E> {
    match event {
        RelayEvent::Read(o) => if state is Read {
            let (s, p) = read_step::<I, O, E>(o);
            RelayRun { state: s, written: Seq::empty(), answered: Seq::empty(), finished: p is Ready }
        } else {
            idle(state)
        },
        RelayEvent::Edit(c) => if state is Handle {
            idle(PipeState::Handle(c))
        } else {
            idle(state)
        },
        RelayEvent::AnswerIncoming(r) => if state is Handle && kind is Incoming {
            match r {
                AdapterPoll::Pending => idle(state),
                AdapterPoll::Ready(a) => RelayRun {
                    state: PipeState::Write(state->Handle_0, Some(a), None),
                    written: Seq::empty(),
                    answered: if forwards(Some(a)) {
                        seq![state->Handle_0@]
                    } else {
                        Seq::empty()
                    },
                    finished: false,
                },
            }
        } else {
            idle(state)
        },
        RelayEvent::AnswerOutgoing(r) => if state is Handle && kind is Outgoing {
            match r {
                AdapterPoll::Pending => idle(state),
                AdapterPoll::Ready(a) => RelayRun {
                    state: PipeState::Write(state->Handle_0, None, Some(a)),
                    written: Seq::empty(),
                    answered: if forwards(Some(a)) {
                        seq![state->Handle_0@]
                    } else {
                        Seq::empty()
                    },
                    finished: false,
                },
            }
        } else {
            idle(state)
        },
        RelayEvent::Write(o) => match state {
            PipeState::Write(c, a, b) => if kind is Incoming && a is Some {
                write_event(c, PipeState::Write(c, None, b), incoming_write_step(a->Some_0), o)
            } else if kind is Outgoing && b is Some {
                write_event(c, PipeState::Write(c, a, None), outgoing_write_step(b->Some_0), o)
            } else {
                idle(state)
            },
            _ => idle(state),
        },
    }
}

/// A run of events, up to the step that yields the relay's outcome (a
/// finished relay is not driven further).
pub open spec fn relay_run<I, O, E>(kind: PipeType, state: PipeState<I, O, E>, events: Seq<RelayEvent<I, O, E>>) -> RelayRun<I, O, E>
    decreases events.len(),
{
    if events.len() == 0 {
        idle(state)
    } else {
        let first = relay_step(kind, state, events[0]);
        if first.finished {
            first
        } else {
            let rest = relay_run(kind, first.state, events.drop_first());
            RelayRun {
                state: rest.state,
                written: first.written + rest.written,
                answered: first.answered + rest.answered,
                finished: rest.finished,
            }
        }
    }
}

/// Every write of the run completes.
pub open spec fn writes_complete<I, O, E>(events: Seq<RelayEvent<I, O, E>>) -> bool {
    forall|i: int| 0 <= i < events.len() && #[trigger] events[i] is Write ==> events[i]->Write_0 is Ready
}

proof fn lemma_relay_step_forwards<I, O, E>(kind: PipeType, state: PipeState<I, O, E>, event: RelayEvent<I, O, E>)
    requires
        event is Write ==> event->Write_0 is Ready,
    ensures
        relay_step(kind, state, event).written + pending(kind, relay_step(kind, state, event).state)
            == pending(kind, state) + relay_step(kind, state, event).answered,
{
    let r = relay_step(kind, state, event);
    assert(r.written + pending(kind, r.state) =~= pending(kind, state) + r.answered);
}

/// A relay writes exactly the chunks the adapter answered to forward, as
/// the adapter left them, in order, when its writes complete: all of them
/// but the one it may still hold for writing. A chunk answered `End` or
/// with a failure is never written, and nothing is written once the relay
/// yielded its outcome.
pub proof fn law_relay_writes_forwarded_chunks<I, O, E>(
    kind: PipeType,
    state: PipeState<I, O, E>,
    events: Seq<RelayEvent<I, O, E>>,
)
    requires
        writes_complete(events),
    ensures
        relay_run(kind, state, events).written + pending(kind, relay_run(kind, state, events).state)
            == pending(kind, state) + relay_run(kind, state, events).answered,
    decreases events.len(),
{
    if events.len() > 0 {
        assert(events[0] is Write ==> events[0]->Write_0 is Ready);
        lemma_relay_step_forwards(kind, state, events[0]);
        let first = relay_step(kind, state, events[0]);
        if !first.finished {
            let rest_events = events.drop_first();
            assert forall|i: int| 0 <= i < rest_events.len() && #[trigger] rest_events[i] is Write implies rest_events[i]->Write_0 is Ready by {
                assert(rest_events[i] == events[i + 1]);
            }
            law_relay_writes_forwarded_chunks(kind, first.state, rest_events);
            let rest = relay_run(kind, first.state, rest_events);
            assert(first.written + rest.written + pending(kind, rest.state) =~= pending(kind, state) + (
            first.answered + rest.answered));
        }
    }
}

/// From a relay about to read, the chunks written and the one held for
/// writing are exactly the chunks answered to forward.
pub proof fn law_fresh_relay_writes_forwarded_chunks<I, O, E>(kind: PipeType, events: Seq<RelayEvent<I, O, E>>)
    requires
        writes_complete(events),
    ensures
        relay_run(kind, PipeState::<I, O, E>::Read, events).written + pending(
            kind,
            relay_run(kind, PipeState::<I, O, E>::Read, events).state,
        ) == relay_run(kind, PipeState::<I, O, E>::Read, events).answered,
{
    law_relay_writes_forwarded_chunks(kind, PipeState::<I, O, E>::Read, events);
    let r = relay_run(kind, PipeState::<I, O, E>::Read, events);
    assert(pending(kind, PipeState::<I, O, E>::Read) + r.answered =~= r.answered);
}

/// The outcome of a proxied request and its response, from the outcome of
/// the relay from the client (which holds the request's value) and that of
/// the relay from the server (which holds the response's value).
pub fn exchange_outcome<I, O>(request: (Option<I>, Option<O>), response: (Option<I>, Option<O>)) -> (r: (I, O))
    requires
        request.0 is Some,
        response.1 is Some,
    ensures
        r == (request.0->Some_0, response.1->Some_0),
{
    let (req, _) = request;
    let (_, resp) = response;
    (req.unwrap(), resp.unwrap())
}

} // verus!
