//! The decisions of the HTTP adapter: which parser a connection direction
//! uses, and whether the message it carries is complete. The adapter ends
//! an exchange with the chunk that completes an HTTP message.

use vstd::prelude::*;
use crate::adapter::{AdapterAction, AdapterPoll};

verus! {

/// Which HTTP messages a parser reads.
#[derive(PartialEq, Eq, Structural, Clone, Copy, Debug)]
pub enum ParserKind {
    /// Requests, as a client sends them.
    Request,
    /// Responses, as a server sends them.
    Response,
}

/// Collects what the parser reports: whether a whole message was read.
pub struct HttpParserHandler {
    pub done: bool,
}

impl Default for HttpParserHandler {
    fn default() -> (handler: HttpParserHandler)
        ensures
            !handler.done,
    {
        HttpParserHandler::new()
    }
}

impl HttpParserHandler {
    /// A handler that has seen no complete message.
    pub fn new() -> (handler: HttpParserHandler)
        ensures
            !handler.done,
    {
        HttpParserHandler { done: false }
    }

    /// The parser read a whole message: the handler records it and lets
    /// the parser go on.
    pub fn on_message_complete(&mut self) -> (go_on: bool)
        ensures
            final(self).done,
            go_on,
    {
        self.done = true;
        true
    }
}

/// Whether a handler exists and saw a whole message, after the adapter
/// prepared for a chunk: the handler is made if it was not.
pub open spec fn done_after_prepare(done: Option<bool>) -> Option<bool> {
    match done {
        Some(d) => Some(d),
        None => Some(false),
    }
}

/// Whether a handler exists and saw a whole message, after the parser
/// reported one.
pub open spec fn done_after_complete(done: Option<bool>) -> Option<bool> {
    Some(true)
}

/// The adapter's answer for a chunk: end the exchange once a whole message
/// was read, else forward the chunk and go on.
pub open spec fn answer_for(done: Option<bool>) -> AdapterAction<()> {
    if done == Some(true) {
        AdapterAction::WriteAndEnd(())
    } else {
        AdapterAction::Write
    }
}

/// What can happen to the adapter between two answers.
pub enum HttpEvent {
    /// It prepares for a chunk from the client.
    PrepareIncoming,
    /// It prepares for a chunk from the server.
    PrepareOutgoing,
    /// The parser reports a whole message.
    MessageComplete,
}

/// Whether a handler exists and saw a whole message, after `events`.
pub open spec fn done_after(done: Option<bool>, events: Seq<HttpEvent>) -> Option<bool>
    decreases events.len(),
{
    if events.len() == 0 {
        done
    } else {
        let next = match events[0] {
            HttpEvent::MessageComplete => done_after_complete(done),
            _ => done_after_prepare(done),
        };
        done_after(next, events.drop_first())
    }
}

/// Once the adapter answered that the exchange ends, it answers so for
/// every later chunk, whatever happens in between: the flag is never reset.
pub proof fn law_end_is_final(done: Option<bool>, events: Seq<HttpEvent>)
    requires
        answer_for(done) == AdapterAction::<()>::WriteAndEnd(()),
    ensures
        done_after(done, events) == Some(true),
        answer_for(done_after(done, events)) == AdapterAction::<()>::WriteAndEnd(()),
    decreases events.len(),
{
    if events.len() > 0 {
        let next = match events[0] {
            HttpEvent::MessageComplete => done_after_complete(done),
            _ => done_after_prepare(done),
        };
        law_end_is_final(next, events.drop_first());
    }
}

/// Only the parser's report of a whole message ends an exchange: while no
/// such report comes, however many chunks the adapter prepares for, it
/// answers to forward each chunk and go on, and a report makes it answer
/// to end.
pub proof fn law_only_completion_ends(done: Option<bool>, events: Seq<HttpEvent>)
    requires
        done != Some(true),
        forall|i: int| 0 <= i < events.len() ==> !(#[trigger] events[i] is MessageComplete),
    ensures
        done_after(done, events) != Some(true),
        answer_for(done_after(done, events)) == AdapterAction::<()>::Write,
        answer_for(done_after(done, events.push(HttpEvent::MessageComplete))) == AdapterAction::<()>::WriteAndEnd(()),
    decreases events.len(),
{
    if events.len() > 0 {
        assert(!(events[0] is MessageComplete));
        let rest = events.drop_first();
        assert forall|i: int| 0 <= i < rest.len() implies !(#[trigger] rest[i] is MessageComplete) by {
            assert(rest[i] == events[i + 1]);
        }
        law_only_completion_ends(done_after_prepare(done), rest);
        assert(events.push(HttpEvent::MessageComplete)[0] == events[0]);
        assert(events.push(HttpEvent::MessageComplete).drop_first() =~= rest.push(HttpEvent::MessageComplete));
    } else {
        let one = events.push(HttpEvent::MessageComplete);
        assert(one.drop_first() =~= Seq::<HttpEvent>::empty());
        assert(one[0] is MessageComplete);
        assert(done_after(done, one) == done_after(done_after_complete(done), one.drop_first()));
    }
}

/// The HTTP adapter's state: the kind of the parser in use, made for the
/// direction of the first chunk and kept from then on, and the handler
/// that the parser reports to.
pub struct HttpAdapter {
    parser: Option<ParserKind>,
    handler: Option<HttpParserHandler>,
}

impl HttpAdapter {
    /// The kind of the parser in use, if one was made.
    pub closed spec fn parser_kind(&self) -> Option<ParserKind> {
        self.parser
    }

    /// Whether a handler was made, and whether it saw a whole message.
    pub closed spec fn message_done(&self) -> Option<bool> {
        match self.handler {
            Some(h) => Some(h.done),
            None => None,
        }
    }

    /// An adapter that has made no parser and no handler yet.
    pub fn new() -> (adapter: HttpAdapter)
        ensures
            adapter.parser_kind() is None,
            adapter.message_done() is None,
    {
        HttpAdapter { parser: None, handler: None }
    }

    /// Makes, unless it was made before, the parser (of kind `kind`) and
    /// the handler, and returns the kind of the parser in use.
    fn prepare(&mut self, kind: ParserKind) -> (in_use: ParserKind)
        ensures
            in_use == match old(self).parser_kind() {
                Some(k) => k,
                None => kind,
            },
            final(self).parser_kind() == Some(in_use),
            final(self).message_done() == done_after_prepare(old(self).message_done()),
            old(self).message_done() != Some(true) ==> final(self).message_done() == Some(false),
            old(self).message_done() == Some(true) ==> final(self).message_done() == Some(true),
    {
        let in_use = match self.parser {
            Some(k) => k,
            None => kind,
        };
        self.parser = Some(in_use);
        if self.handler.is_none() {
            self.handler = Some(HttpParserHandler::new());
        }
        in_use
    }

    /// Prepares for a chunk from the client: the parser reads requests
    /// unless one was made before. Returns the kind of the parser in use.
    pub fn prepare_incoming(&mut self) -> (in_use: ParserKind)
        ensures
            in_use == match old(self).parser_kind() {
                Some(k) => k,
                None => ParserKind::Request,
            },
            final(self).parser_kind() == Some(in_use),
            final(self).message_done() == done_after_prepare(old(self).message_done()),
            old(self).message_done() != Some(true) ==> final(self).message_done() == Some(false),
            old(self).message_done() == Some(true) ==> final(self).message_done() == Some(true),
    {
        self.prepare(ParserKind::Request)
    }

    /// Prepares for a chunk from the server: the parser reads responses
    /// unless one was made before. Returns the kind of the parser in use.
    pub fn prepare_outgoing(&mut self) -> (in_use: ParserKind)
        ensures
            in_use == match old(self).parser_kind() {
                Some(k) => k,
                None => ParserKind::Response,
            },
            final(self).parser_kind() == Some(in_use),
            final(self).message_done() == done_after_prepare(old(self).message_done()),
            old(self).message_done() != Some(true) ==> final(self).message_done() == Some(false),
            old(self).message_done() == Some(true) ==> final(self).message_done() == Some(true),
    {
        self.prepare(ParserKind::Response)
    }

    /// The parser reports a whole message to the handler; returns whether
    /// the parser goes on.
    pub fn message_complete(&mut self) -> (go_on: bool)
        requires
            old(self).message_done() is Some,
        ensures
            final(self).parser_kind() == old(self).parser_kind(),
            final(self).message_done() == done_after_complete(old(self).message_done()),
            final(self).message_done() == Some(true),
            go_on,
    {
        match &mut self.handler {
            Some(handler) => handler.on_message_complete(),
            None => true,
        }
    }

    /// The adapter's full answer for the chunk just parsed: always ready and
    /// never a failure; the chunk itself is left as it was.
    pub fn poll_answer(&self) -> (r: AdapterPoll<Result<AdapterAction<()>, ()>>)
        requires
            self.message_done() is Some,
        ensures
            r == AdapterPoll::Ready(Ok::<AdapterAction<()>, ()>(answer_for(self.message_done()))),
            self.message_done() == Some(true) ==> r == AdapterPoll::Ready(Ok::<AdapterAction<()>, ()>(AdapterAction::WriteAndEnd(()))),
            self.message_done() != Some(true) ==> r == AdapterPoll::Ready(Ok::<AdapterAction<()>, ()>(AdapterAction::Write)),
    {
        AdapterPoll::Ready(Ok(self.answer()))
    }

    /// The answer for the chunk just parsed: forward it, and end the
    /// exchange once a whole message was read.
    pub fn answer(&self) -> (action: AdapterAction<()>)
        requires
            self.message_done() is Some,
        ensures
            action == answer_for(self.message_done()),
            self.message_done() == Some(true) ==> action == AdapterAction::<()>::WriteAndEnd(()),
            self.message_done() != Some(true) ==> action == AdapterAction::<()>::Write,
    {
        match &self.handler {
            Some(h) => if h.done {
                AdapterAction::WriteAndEnd(())
            } else {
                AdapterAction::Write
            },
            None => AdapterAction::Write,
        }
    }
}

impl Default for HttpAdapter {
    fn default() -> (adapter: HttpAdapter)
        ensures
            adapter.parser_kind() is None,
            adapter.message_done() is None,
    {
        HttpAdapter::new()
    }
}

} // verus!
