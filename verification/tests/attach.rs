use devenv::attach::{
    initial_resize, payload, poll_resize, OutputChunk, Resize, Session, SessionAction, SessionEvent,
};

fn run(session: &mut Session, events: Vec<SessionEvent>) -> (Vec<u8>, Vec<u8>, Vec<Resize>, usize) {
    let mut local = Vec::new();
    let mut remote = Vec::new();
    let mut sizes = Vec::new();
    let mut teardowns = 0;
    for event in events {
        match session.step(event) {
            SessionAction::Ignore => {}
            SessionAction::WriteLocal(bytes) => local.extend(bytes),
            SessionAction::WriteRemote(bytes) => remote.extend(bytes),
            SessionAction::SendResize(size) => sizes.push(size),
            SessionAction::Teardown => teardowns += 1,
        }
    }
    (local, remote, sizes, teardowns)
}

#[test]
fn output_pump_forwards_exactly_what_was_sent_before_the_close() {
    let mut session = Session::begin();
    let events = vec![
        SessionEvent::Output(OutputChunk::StdOut(b"hel".to_vec())),
        SessionEvent::Input(b"ls\n".to_vec()),
        SessionEvent::Output(OutputChunk::StdIn(b"ignored".to_vec())),
        SessionEvent::Output(OutputChunk::Console(b"lo ".to_vec())),
        SessionEvent::Resized { cols: 80, rows: 24 },
        SessionEvent::Output(OutputChunk::Broken),
        SessionEvent::Output(OutputChunk::StdErr(b"world".to_vec())),
        SessionEvent::OutputClosed,
        SessionEvent::Output(OutputChunk::StdOut(b"late".to_vec())),
        SessionEvent::Input(b"x".to_vec()),
    ];
    let (local, remote, sizes, teardowns) = run(&mut session, events);
    assert_eq!(local, b"hello world".to_vec());
    assert_eq!(local.len(), 11);
    assert_eq!(remote, b"ls\nx".to_vec());
    assert_eq!(sizes, vec![Resize { height: 24, width: 80 }]);
    assert_eq!(teardowns, 0);
    assert!(!session.is_over());
    assert!(session.watcher_active);
    assert!(!session.output_open);
}

#[test]
fn watcher_is_cancelled_when_output_closes_first() {
    let mut session = Session::begin();
    assert!(matches!(session.step(SessionEvent::OutputClosed), SessionAction::Ignore));
    assert!(session.watcher_active);
    assert!(matches!(session.step(SessionEvent::InputClosed), SessionAction::Teardown));
    assert!(session.is_over());
    assert!(!session.watcher_active);
}

#[test]
fn watcher_is_cancelled_when_input_ends_first() {
    let mut session = Session::begin();
    assert!(matches!(session.step(SessionEvent::InputClosed), SessionAction::Ignore));
    assert!(session.watcher_active);
    assert!(matches!(
        session.step(SessionEvent::Output(OutputChunk::StdOut(vec![1, 2, 3]))),
        SessionAction::WriteLocal(_)
    ));
    assert!(matches!(session.step(SessionEvent::Input(vec![9])), SessionAction::Ignore));
    assert!(matches!(session.step(SessionEvent::OutputClosed), SessionAction::Teardown));
    assert!(session.is_over());
    assert!(!session.watcher_active);
}

#[test]
fn a_failed_pump_ends_the_session_at_once() {
    let mut session = Session::begin();
    assert!(matches!(session.step(SessionEvent::PumpFailed), SessionAction::Teardown));
    assert!(session.is_over());
    assert!(!session.watcher_active);
    let (local, remote, sizes, teardowns) = run(
        &mut session,
        vec![
            SessionEvent::Output(OutputChunk::StdOut(vec![1])),
            SessionEvent::Input(vec![2]),
            SessionEvent::Resized { cols: 1, rows: 2 },
            SessionEvent::OutputClosed,
            SessionEvent::InputClosed,
            SessionEvent::PumpFailed,
        ],
    );
    assert!(local.is_empty());
    assert!(remote.is_empty());
    assert!(sizes.is_empty());
    assert_eq!(teardowns, 0);
}

#[test]
fn payload_is_what_is_shown() {
    assert_eq!(payload(OutputChunk::StdOut(vec![1])), Some(vec![1]));
    assert_eq!(payload(OutputChunk::StdErr(vec![2])), Some(vec![2]));
    assert_eq!(payload(OutputChunk::Console(vec![3])), Some(vec![3]));
    assert_eq!(payload(OutputChunk::StdIn(vec![4])), None);
    assert_eq!(payload(OutputChunk::Broken), None);
}

#[test]
fn the_size_is_sent_as_height_and_width() {
    assert_eq!(initial_resize(Some((120, 40))), Some(Resize { height: 40, width: 120 }));
    assert_eq!(initial_resize(None), None);
}

#[test]
fn a_polling_watcher_forwards_only_changes() {
    let (last, sent) = poll_resize((0, 0), Some((80, 24)));
    assert_eq!(last, (80, 24));
    assert_eq!(sent, Some(Resize { height: 24, width: 80 }));
    let (last, sent) = poll_resize(last, Some((80, 24)));
    assert_eq!(last, (80, 24));
    assert_eq!(sent, None);
    let (last, sent) = poll_resize(last, None);
    assert_eq!(last, (80, 24));
    assert_eq!(sent, None);
    let (last, sent) = poll_resize(last, Some((80, 25)));
    assert_eq!(last, (80, 25));
    assert_eq!(sent, Some(Resize { height: 25, width: 80 }));
}
