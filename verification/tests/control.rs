use goose_control::config::GooseConfiguration;
use goose_control::messages::{GooseControl, GooseControlReply, GooseControllerCommand};
use goose_control::session::{greeting, Session};

fn test_config() -> GooseConfiguration {
    GooseConfiguration {
        host: b"http://localhost/".to_vec(),
        users: 5,
        hatch_rate: b"1.5".to_vec(),
    }
}

fn open_session() -> (Session, flume::Receiver<GooseControl>) {
    let (tx, rx) = flume::unbounded();
    (Session::new(tx, test_config()), rx)
}

#[test]
fn test_greeting_is_prompt() {
    assert_eq!(greeting(), b"goose> ".to_vec());
}

#[test]
fn test_echo_reply() {
    let (mut s, rx) = open_session();
    let r = s.handle_chunk(b"echo\n");
    assert_eq!(r.reply.unwrap(), b"echo\ngoose> ".to_vec());
    assert!(!s.closed);
    assert!(rx.try_recv().is_err());
}

#[test]
fn test_echo_any_case() {
    for line in [b"ECHO\n".to_vec(), b"Echo\n".to_vec(), b"eChO\n".to_vec()] {
        let (mut s, rx) = open_session();
        let r = s.handle_chunk(&line);
        assert_eq!(r.reply.unwrap(), b"echo\ngoose> ".to_vec());
        assert!(rx.try_recv().is_err());
    }
}

#[test]
fn test_users_sends_one_command() {
    let (mut s, rx) = open_session();
    let r = s.handle_chunk(b"users 10\n");
    assert_eq!(r.reply.unwrap(), b"reconfigured users: 10\ngoose> ".to_vec());
    match rx.try_recv().unwrap() {
        GooseControl::CommandAndValue(cv) => {
            assert_eq!(cv.command, GooseControllerCommand::Users);
            assert_eq!(cv.value, b"10".to_vec());
        }
        other => panic!("unexpected message: {:?}", other),
    }
    assert!(rx.try_recv().is_err());
}

#[test]
fn test_users_case_insensitive_keyword() {
    let (mut s, rx) = open_session();
    let r = s.handle_chunk(b"UsErS 7\n");
    assert_eq!(r.reply.unwrap(), b"reconfigured users: 7\ngoose> ".to_vec());
    match rx.try_recv().unwrap() {
        GooseControl::CommandAndValue(cv) => assert_eq!(cv.value, b"7".to_vec()),
        other => panic!("unexpected message: {:?}", other),
    }
}

#[test]
fn test_users_invalid_value() {
    let (mut s, rx) = open_session();
    let r = s.handle_chunk(b"users abc\n");
    assert_eq!(r.reply.unwrap(), b"invalid value\ngoose> ".to_vec());
    assert!(rx.try_recv().is_err());
    assert!(!s.closed);
    // The session goes on working after the bad value.
    let r = s.handle_chunk(b"echo\n");
    assert_eq!(r.reply.unwrap(), b"echo\ngoose> ".to_vec());
}

#[test]
fn test_users_empty_capture() {
    let (mut s, rx) = open_session();
    let r = s.handle_chunk(b"users \n");
    assert_eq!(r.reply.unwrap(), b"invalid value\ngoose> ".to_vec());
    assert!(rx.try_recv().is_err());
}

#[test]
fn test_hatchrate_sends_one_command() {
    let (mut s, rx) = open_session();
    let r = s.handle_chunk(b"hatchrate 2.5\n");
    assert_eq!(r.reply.unwrap(), b"reconfigured hatch_rate: 2.5\ngoose> ".to_vec());
    match rx.try_recv().unwrap() {
        GooseControl::CommandAndValue(cv) => {
            assert_eq!(cv.command, GooseControllerCommand::HatchRate);
            assert_eq!(cv.value, b"2.5".to_vec());
        }
        other => panic!("unexpected message: {:?}", other),
    }
    assert!(rx.try_recv().is_err());
}

#[test]
fn test_hatchrate_invalid_values() {
    for line in [
        b"hatchrate .\n".to_vec(),
        b"hatchrate 1.2.3\n".to_vec(),
        b"hatchrate \n".to_vec(),
        b"hatchrate x\n".to_vec(),
    ] {
        let (mut s, rx) = open_session();
        let r = s.handle_chunk(&line);
        assert_eq!(r.reply.unwrap(), b"invalid value\ngoose> ".to_vec());
        assert!(rx.try_recv().is_err());
    }
}

#[test]
fn test_stop_sends_stop() {
    let (mut s, rx) = open_session();
    let r = s.handle_chunk(b"stop\n");
    assert_eq!(r.reply.unwrap(), b"stopping load test...\ngoose> ".to_vec());
    assert!(matches!(
        rx.try_recv().unwrap(),
        GooseControl::Command(GooseControllerCommand::Stop)
    ));
    assert!(rx.try_recv().is_err());
}

#[test]
fn test_unrecognized_sends_nothing() {
    let (mut s, rx) = open_session();
    let r = s.handle_chunk(b"launch the missiles\n");
    assert_eq!(r.reply.unwrap(), b"unrecognized command\ngoose> ".to_vec());
    assert!(rx.try_recv().is_err());
    assert!(!s.closed);
}

#[test]
fn test_quit_closes_session() {
    for line in [b"exit\n".to_vec(), b"quit\n".to_vec(), b"QUIT\n".to_vec(), b"Exit\n".to_vec()] {
        let (mut s, rx) = open_session();
        let r = s.handle_chunk(&line);
        assert_eq!(r.reply.unwrap(), b"goodbye!\ngoose> ".to_vec());
        assert!(s.closed);
        assert!(rx.try_recv().is_err());
    }
}

#[test]
fn test_eof_closes_silently() {
    let (mut s, rx) = open_session();
    let r = s.handle_chunk(b"");
    assert!(r.reply.is_none());
    assert!(s.closed);
    assert!(rx.try_recv().is_err());
}

#[test]
fn test_invalid_utf8_skipped_silently() {
    let (mut s, rx) = open_session();
    let r = s.handle_chunk(&[0xff, 0xfe, b'\n']);
    assert!(r.reply.is_none());
    assert!(!s.closed);
    assert!(rx.try_recv().is_err());
    // Still answering afterwards.
    let r = s.handle_chunk(b"echo\n");
    assert_eq!(r.reply.unwrap(), b"echo\ngoose> ".to_vec());
}

#[test]
fn test_only_first_line_of_chunk_is_used() {
    let (mut s, rx) = open_session();
    let r = s.handle_chunk(b"echo\nstop\n");
    assert_eq!(r.reply.unwrap(), b"echo\ngoose> ".to_vec());
    assert!(rx.try_recv().is_err());
}

#[test]
fn test_crlf_line_ending() {
    let (mut s, _rx) = open_session();
    let r = s.handle_chunk(b"echo\r\n");
    assert_eq!(r.reply.unwrap(), b"echo\ngoose> ".to_vec());
}

#[test]
fn test_busy_channel_then_single_retry() {
    let (tx, rx) = flume::bounded(1);
    // Saturate the shared channel.
    tx.try_send(GooseControl::Command(GooseControllerCommand::Stop))
        .unwrap();
    let mut s = Session::new(tx, test_config());
    let r = s.handle_chunk(b"stop\n");
    assert_eq!(r.reply.unwrap(), b"busy, command not applied\ngoose> ".to_vec());
    // Drain the channel: only the pre-filled message is there.
    assert!(rx.try_recv().is_ok());
    assert!(rx.try_recv().is_err());
    // One retry delivers exactly one stop command.
    let r = s.handle_chunk(b"stop\n");
    assert_eq!(r.reply.unwrap(), b"stopping load test...\ngoose> ".to_vec());
    assert!(matches!(
        rx.try_recv().unwrap(),
        GooseControl::Command(GooseControllerCommand::Stop)
    ));
    assert!(rx.try_recv().is_err());
}

#[test]
fn test_closed_channel_reports_unavailable() {
    let (tx, rx) = flume::unbounded::<GooseControl>();
    drop(rx);
    let mut s = Session::new(tx, test_config());
    let r = s.handle_chunk(b"stop\n");
    assert_eq!(r.reply.unwrap(), b"coordinator unavailable\ngoose> ".to_vec());
}

#[test]
fn test_config_request_unanswered_times_out() {
    let (tx, rx) = flume::unbounded::<GooseControl>();
    drop(rx);
    let mut s = Session::new(tx, test_config());
    let r = s.handle_chunk(b"config\n");
    assert_eq!(r.reply.unwrap(), b"coordinator unavailable\ngoose> ".to_vec());
}

#[test]
fn test_config_request_fulfilled() {
    let (tx, rx) = flume::unbounded::<GooseControl>();
    let rt = tokio::runtime::Builder::new_multi_thread()
        .worker_threads(1)
        .build()
        .unwrap();
    rt.spawn(async move {
        if let Ok(GooseControl::Request(GooseControllerCommand::Config, slot)) =
            rx.recv_async().await
        {
            let snapshot = GooseConfiguration {
                host: b"http://localhost/".to_vec(),
                users: 12,
                hatch_rate: b"0.25".to_vec(),
            };
            let _ = slot.send(GooseControlReply::GooseConfiguration(snapshot));
        }
    });
    let mut s = Session::new(tx, test_config());
    let r = s.handle_chunk(b"config\n");
    assert_eq!(
        r.reply.unwrap(),
        b"{\"host\":\"http://localhost/\",\"users\":12,\"hatch_rate\":\"0.25\"}\ngoose> ".to_vec()
    );
}

#[test]
fn test_interleaved_sessions_stay_independent() {
    let (tx, rx) = flume::unbounded();
    let mut a = Session::new(tx.clone(), test_config());
    let mut b = Session::new(tx, test_config());
    let ra1 = a.handle_chunk(b"users 10\n");
    let rb1 = b.handle_chunk(b"hatchrate 2.5\n");
    let ra2 = a.handle_chunk(b"echo\n");
    let rb2 = b.handle_chunk(b"quit\n");
    assert_eq!(ra1.reply.unwrap(), b"reconfigured users: 10\ngoose> ".to_vec());
    assert_eq!(rb1.reply.unwrap(), b"reconfigured hatch_rate: 2.5\ngoose> ".to_vec());
    assert_eq!(ra2.reply.unwrap(), b"echo\ngoose> ".to_vec());
    assert_eq!(rb2.reply.unwrap(), b"goodbye!\ngoose> ".to_vec());
    assert!(!a.closed);
    assert!(b.closed);
    // The coordinator sees both distinct commands, one per session.
    let mut got_users = false;
    let mut got_hatch = false;
    while let Ok(m) = rx.try_recv() {
        match m {
            GooseControl::CommandAndValue(cv) => {
                if cv.command == GooseControllerCommand::Users {
                    assert_eq!(cv.value, b"10".to_vec());
                    got_users = true;
                } else {
                    assert_eq!(cv.command, GooseControllerCommand::HatchRate);
                    assert_eq!(cv.value, b"2.5".to_vec());
                    got_hatch = true;
                }
            }
            other => panic!("unexpected message: {:?}", other),
        }
    }
    assert!(got_users && got_hatch);
}

#[test]
fn test_truly_concurrent_sessions() {
    let (tx, rx) = flume::unbounded();
    let rt = tokio::runtime::Builder::new_multi_thread()
        .worker_threads(2)
        .build()
        .unwrap();
    let tx_b = tx.clone();
    let task_a = rt.spawn(async move {
        let mut s = Session::new(tx, test_config());
        let r = s.handle_chunk(b"users 10\n");
        assert_eq!(r.reply.unwrap(), b"reconfigured users: 10\ngoose> ".to_vec());
    });
    let task_b = rt.spawn(async move {
        let mut s = Session::new(tx_b, test_config());
        let r = s.handle_chunk(b"hatchrate 2.5\n");
        assert_eq!(r.reply.unwrap(), b"reconfigured hatch_rate: 2.5\ngoose> ".to_vec());
    });
    rt.block_on(async {
        task_a.await.unwrap();
        task_b.await.unwrap();
    });
    let mut values = Vec::new();
    while let Ok(m) = rx.try_recv() {
        match m {
            GooseControl::CommandAndValue(cv) => values.push(cv.value),
            other => panic!("unexpected message: {:?}", other),
        }
    }
    values.sort();
    assert_eq!(values, vec![b"10".to_vec(), b"2.5".to_vec()]);
}

#[test]
fn test_per_session_order_is_fifo() {
    let (tx, rx) = flume::unbounded();
    let mut s = Session::new(tx, test_config());
    s.handle_chunk(b"users 1\n");
    s.handle_chunk(b"users 2\n");
    s.handle_chunk(b"users 3\n");
    let mut seen = Vec::new();
    while let Ok(m) = rx.try_recv() {
        if let GooseControl::CommandAndValue(cv) = m {
            seen.push(cv.value);
        }
    }
    assert_eq!(seen, vec![b"1".to_vec(), b"2".to_vec(), b"3".to_vec()]);
}
