use proxy_rs::adapter::{Adapter, AdapterAction, AdapterPoll, PassthroughAdapter};
use proxy_rs::http::{HttpAdapter, HttpParserHandler, ParserKind};
use proxy_rs::pipe::{exchange_outcome, IoPoll, Pipe, PipeAction, PipePoll, PipeState, PipeType, ProxyError, WriteStep};
use proxy_rs::proxy::{Proxy, ProxyBuilder};

fn io_error() -> std::io::Error {
    std::io::Error::new(std::io::ErrorKind::BrokenPipe, "gone")
}

fn with_context<R>(f: impl FnOnce(&mut std::task::Context<'_>) -> R) -> R {
    let mut cx = std::task::Context::from_waker(futures::task::noop_waker_ref());
    f(&mut cx)
}

#[test]
fn passthrough_forwards_everything() {
    let mut a = PassthroughAdapter::default();
    assert_eq!(a.buffer_size(), 1024);
    let mut chunk = vec![1u8, 2, 3];
    with_context(|cx| {
        assert!(matches!(a.poll_handle_incoming(cx, &mut chunk), AdapterPoll::Ready(Ok(AdapterAction::Write))));
        assert!(matches!(a.poll_handle_outgoing(cx, &mut chunk), AdapterPoll::Ready(Ok(AdapterAction::Write))));
    });
    assert_eq!(chunk, vec![1u8, 2, 3]);
}

#[test]
fn relay_cycle_write_and_read_on() {
    let mut p: Pipe<u32, u64, String> = Pipe::new(PipeType::Incoming);
    assert!(matches!(p.state, PipeState::Read));
    assert!(matches!(p.after_read(IoPoll::NotReady), PipePoll::Pending { wake: false }));
    assert!(matches!(p.state, PipeState::Read));
    assert!(matches!(p.after_read(IoPoll::Ready(vec![9u8, 8])), PipePoll::Pending { wake: true }));
    assert!(matches!(&p.state, PipeState::Handle(c) if c == &vec![9u8, 8]));
    assert!(matches!(p.after_handle_incoming(AdapterPoll::Pending), PipePoll::Pending { wake: false }));
    if let PipeState::Handle(c) = &mut p.state {
        c.push(7);
    }
    assert!(matches!(p.after_handle_incoming(AdapterPoll::Ready(Ok(AdapterAction::Write))), PipePoll::Pending { wake: true }));
    assert!(matches!(&p.state, PipeState::Write(c, Some(Ok(AdapterAction::Write)), None) if c == &vec![9u8, 8, 7]));
    let then = match p.begin_write() {
        WriteStep::Send { then } => then,
        WriteStep::Finish(_) => panic!("a Write answer writes"),
    };
    assert!(then.is_none());
    assert!(matches!(&p.state, PipeState::Write(c, None, None) if c == &vec![9u8, 8, 7]));
    assert!(matches!(p.after_write(then, IoPoll::Ready(3)), PipePoll::Pending { wake: true }));
    assert!(matches!(p.state, PipeState::Read));
}

#[test]
fn relay_write_and_end_incoming() {
    let mut p: Pipe<u32, u64, String> = Pipe::new(PipeType::Incoming);
    p.after_read(IoPoll::Ready(vec![1]));
    p.after_handle_incoming(AdapterPoll::Ready(Ok(AdapterAction::WriteAndEnd(5))));
    let then = match p.begin_write() {
        WriteStep::Send { then } => then,
        WriteStep::Finish(_) => panic!("WriteAndEnd writes first"),
    };
    assert_eq!(then, Some((Some(5u32), None)));
    assert!(matches!(p.after_write(then, IoPoll::NotReady), PipePoll::Pending { wake: false }));
    assert!(matches!(p.after_write(Some((Some(5), None)), IoPoll::Ready(1)), PipePoll::Ready(Ok((Some(5), None)))));
}

#[test]
fn relay_end_outgoing_without_write() {
    let mut p: Pipe<u32, u64, String> = Pipe::new(PipeType::Outgoing);
    p.after_read(IoPoll::Ready(vec![1]));
    p.after_handle_outgoing(AdapterPoll::Ready(Ok(AdapterAction::End(6))));
    assert!(matches!(&p.state, PipeState::Write(_, None, Some(_))));
    match p.begin_write() {
        WriteStep::Finish(PipePoll::Ready(Ok((None, Some(6))))) => {}
        _ => panic!("End finishes with the response's value"),
    }
    assert!(matches!(&p.state, PipeState::Write(_, None, None)));
}

#[test]
fn relay_errors() {
    let mut p: Pipe<u32, u64, String> = Pipe::new(PipeType::Incoming);
    assert!(matches!(p.after_read(IoPoll::Failed(io_error())), PipePoll::Ready(Err(ProxyError::Io(_)))));
    assert!(matches!(p.state, PipeState::Read));

    p.after_read(IoPoll::Ready(vec![1]));
    p.after_handle_incoming(AdapterPoll::Ready(Err("bad".to_string())));
    match p.begin_write() {
        WriteStep::Finish(PipePoll::Ready(Err(ProxyError::Custom(e)))) => assert_eq!(e, "bad"),
        _ => panic!("a failed adapter ends the exchange"),
    }

    let mut q: Pipe<u32, u64, String> = Pipe::new(PipeType::Outgoing);
    q.after_read(IoPoll::Ready(vec![1]));
    q.after_handle_outgoing(AdapterPoll::Ready(Ok(AdapterAction::Write)));
    let then = match q.begin_write() {
        WriteStep::Send { then } => then,
        WriteStep::Finish(_) => panic!("a Write answer writes"),
    };
    assert!(matches!(q.after_write(then, IoPoll::Failed(io_error())), PipePoll::Ready(Err(ProxyError::Io(_)))));
}

#[test]
fn proxy_error_from_io() {
    let e: ProxyError<()> = ProxyError::from(io_error());
    match e {
        ProxyError::Io(inner) => assert_eq!(inner.kind(), std::io::ErrorKind::BrokenPipe),
        ProxyError::Custom(_) => panic!("an io error is Io"),
    }
}

#[test]
fn exchange_takes_request_and_response() {
    assert_eq!(exchange_outcome::<u8, &str>((Some(1), None), (None, Some("ok"))), (1, "ok"));
}

#[test]
fn http_parser_kind_is_fixed_by_first_direction() {
    let mut a = HttpAdapter::new();
    assert_eq!(a.prepare_incoming(), ParserKind::Request);
    assert_eq!(a.prepare_outgoing(), ParserKind::Request);
    let mut b = HttpAdapter::default();
    assert_eq!(b.prepare_outgoing(), ParserKind::Response);
    assert_eq!(b.prepare_incoming(), ParserKind::Response);
}

#[test]
fn http_answer_ends_once_message_complete() {
    let mut a = HttpAdapter::new();
    a.prepare_incoming();
    assert!(matches!(a.answer(), AdapterAction::Write));
    assert!(a.message_complete());
    assert!(matches!(a.answer(), AdapterAction::WriteAndEnd(())));
    a.prepare_outgoing();
    assert!(matches!(a.answer(), AdapterAction::WriteAndEnd(())));
    a.prepare_incoming();
    assert!(matches!(a.poll_answer(), AdapterPoll::Ready(Ok(AdapterAction::WriteAndEnd(())))));
    let mut b = HttpAdapter::new();
    b.prepare_outgoing();
    assert!(matches!(b.poll_answer(), AdapterPoll::Ready(Ok(AdapterAction::Write))));
}

#[test]
fn handler_records_completion() {
    let mut h = HttpParserHandler::new();
    assert!(!h.done);
    assert!(h.on_message_complete());
    assert!(h.done);
}

#[test]
fn builder_keeps_configuration() {
    let proxy: Proxy<&str, u8, ()> = Proxy::<&str, u8, ()>::builder()
        .bind_addr("127.0.0.1:1")
        .remote_addr("127.0.0.1:2")
        .bind_addr("127.0.0.1:8081")
        .build();
    assert_eq!(proxy.bind_addr, "127.0.0.1:8081");
    assert_eq!(proxy.remote_addr, "127.0.0.1:2");
    assert_eq!(proxy.pool, None);
    assert!(proxy.events.is_none());
    let pooled: Proxy<&str, u8, ()> = ProxyBuilder::new().remote_addr("r").bind_addr("b").with_pool(3).build();
    assert_eq!(pooled.pool, Some(3));
}

#[test]
fn accept_events_sets_sender() {
    let mut proxy: Proxy<&str, u8, u32> = ProxyBuilder::new().bind_addr("b").remote_addr("r").build();
    proxy.accept_events(42);
    assert_eq!(proxy.events, Some(42));
    assert_eq!(proxy.bind_addr, "b");
}

#[test]
fn builder_reports_missing_addresses() {
    let empty: ProxyBuilder<&str, u8> = ProxyBuilder::new();
    assert!(!empty.has_bind_addr());
    assert!(!empty.has_remote_addr());
    let half = empty.bind_addr("b");
    assert!(half.has_bind_addr());
    assert!(!half.has_remote_addr());
    let full = half.remote_addr("r");
    assert!(full.has_remote_addr());
}

#[test]
fn next_action_follows_state() {
    let mut p: Pipe<u32, u64, String> = Pipe::new(PipeType::Outgoing);
    assert_eq!(p.next_action(), PipeAction::Read);
    p.after_read(IoPoll::Ready(vec![1]));
    assert_eq!(p.next_action(), PipeAction::HandleOutgoing);
    p.after_handle_outgoing(AdapterPoll::Ready(Ok(AdapterAction::WriteAndEnd(2))));
    assert_eq!(p.next_action(), PipeAction::Write);
    let then = match p.begin_write() {
        WriteStep::Send { then } => then,
        WriteStep::Finish(_) => panic!("WriteAndEnd writes first"),
    };
    assert_eq!(then, Some((None, Some(2u64))));
    assert!(matches!(p.after_write(then, IoPoll::NotReady), PipePoll::Pending { wake: false }));
    assert_eq!(p.next_action(), PipeAction::Stalled);
    let q: Pipe<u32, u64, String> = Pipe::new(PipeType::Incoming);
    assert_eq!(q.next_action(), PipeAction::Read);
    let mut h: Pipe<u32, u64, String> = Pipe::new(PipeType::Incoming);
    h.after_read(IoPoll::Ready(vec![]));
    assert_eq!(h.next_action(), PipeAction::HandleIncoming);
}

#[test]
fn handler_default_and_debug_output() {
    let h = HttpParserHandler::default();
    assert!(!h.done);
    let e: ProxyError<u8> = ProxyError::Custom(3);
    assert_eq!(format!("{:?}", e), "Custom(3)");
    let a: AdapterAction<u8> = AdapterAction::End(1);
    assert_eq!(format!("{:?}", a), "End(1)");
}

#[test]
fn relay_writes_each_forwarded_chunk_as_edited() {
    let mut p: Pipe<u32, u64, String> = Pipe::new(PipeType::Incoming);
    let mut written: Vec<Vec<u8>> = Vec::new();
    let answers = vec![AdapterAction::Write, AdapterAction::Write, AdapterAction::End(9)];
    let mut finished = None;
    for (i, answer) in answers.into_iter().enumerate() {
        p.after_read(IoPoll::Ready(vec![i as u8]));
        if let PipeState::Handle(c) = &mut p.state {
            c.push(100);
        }
        p.after_handle_incoming(AdapterPoll::Ready(Ok(answer)));
        match p.begin_write() {
            WriteStep::Send { then } => {
                if let PipeState::Write(c, _, _) = &p.state {
                    written.push(c.clone());
                }
                assert!(matches!(p.after_write(then, IoPoll::Ready(2)), PipePoll::Pending { wake: true }));
            }
            WriteStep::Finish(done) => {
                finished = Some(done);
                break;
            }
        }
    }
    assert_eq!(written, vec![vec![0u8, 100], vec![1u8, 100]]);
    assert!(matches!(finished, Some(PipePoll::Ready(Ok((Some(9), None))))));
}
