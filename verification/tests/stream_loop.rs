use tika_build::stream::{
    stream_action, stream_args_ok, stream_buffer_size, usage_message, ReadEvent, StreamAction,
};

/// Feeds `events` through the streaming decisions and collects what is written.
fn written(events: &[ReadEvent]) -> (Vec<usize>, StreamAction) {
    let mut out = Vec::new();
    for ev in events {
        match stream_action(*ev) {
            StreamAction::Write(n) => out.push(n),
            StreamAction::Retry => {}
            end => return (out, end),
        }
    }
    (out, StreamAction::Finish)
}

#[test]
fn read_outcomes_decide_the_action() {
    assert_eq!(stream_action(ReadEvent::Read(0)), StreamAction::Finish);
    assert_eq!(stream_action(ReadEvent::Read(5)), StreamAction::Write(5));
    assert_eq!(stream_action(ReadEvent::Interrupted), StreamAction::Retry);
    assert_eq!(stream_action(ReadEvent::Failed), StreamAction::Abort);
    assert_eq!(stream_buffer_size(), 8192);
}

#[test]
fn interrupted_reads_lose_nothing() {
    let events = [
        ReadEvent::Read(3),
        ReadEvent::Interrupted,
        ReadEvent::Read(8192),
        ReadEvent::Read(0),
        ReadEvent::Read(7),
    ];
    assert_eq!(written(&events), (vec![3, 8192], StreamAction::Finish));
    let failing = [ReadEvent::Read(1), ReadEvent::Failed, ReadEvent::Read(2)];
    assert_eq!(written(&failing), (vec![1], StreamAction::Abort));
    let interrupted_only = [ReadEvent::Interrupted, ReadEvent::Interrupted, ReadEvent::Read(0)];
    assert_eq!(written(&interrupted_only), (vec![], StreamAction::Finish));
}

#[test]
fn arguments_and_usage() {
    assert!(stream_args_ok(2));
    assert!(!stream_args_ok(1));
    assert!(!stream_args_ok(3));
    assert_eq!(usage_message("extract"), "Usage: extract <input file>");
}
