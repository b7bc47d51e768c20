use conv1080::poller::{diagnostic_text, drain_messages, poll_tick, report_from_messages, PollReport};
use conv1080::protocol::{PollError, ProgressUpdate};
use futures::channel::mpsc;

#[test]
fn burst_reports_only_the_latest() {
    let (tx, mut rx) = mpsc::unbounded::<String>();
    tx.unbounded_send("Progress|1|10".to_string()).unwrap();
    tx.unbounded_send("Progress|2|10".to_string()).unwrap();
    tx.unbounded_send("Progress|3|10".to_string()).unwrap();
    match poll_tick(&mut rx) {
        PollReport::Updated(u) => {
            assert_eq!(u, ProgressUpdate { processed: 3, total: 10 });
            let percent = u.percent_numerator() as f32 / u.percent_denominator() as f32;
            assert_eq!(percent, 30.0);
        },
        _ => panic!("expected an update from the newest message"),
    }
}

#[test]
fn empty_channel_reports_no_message() {
    let (_tx, mut rx) = mpsc::unbounded::<String>();
    assert!(matches!(poll_tick(&mut rx), PollReport::NoMessage));
}

#[test]
fn second_tick_after_drain_reports_no_message() {
    let (tx, mut rx) = mpsc::unbounded::<String>();
    tx.unbounded_send("Progress|1|2".to_string()).unwrap();
    assert!(matches!(poll_tick(&mut rx), PollReport::Updated(_)));
    assert!(matches!(poll_tick(&mut rx), PollReport::NoMessage));
}

#[test]
fn non_numeric_message_gives_diagnostic_not_fault() {
    let (tx, mut rx) = mpsc::unbounded::<String>();
    tx.unbounded_send("Progress|x|10".to_string()).unwrap();
    match poll_tick(&mut rx) {
        PollReport::Diagnostic(e, raw) => {
            assert_eq!(e, PollError::NonNumericField);
            assert_eq!(raw, "Progress|x|10");
            assert_eq!(
                diagnostic_text(&e, raw.as_str()),
                "progress numeric not numeric: Progress|x|10"
            );
        },
        _ => panic!("expected a diagnostic"),
    }
}

#[test]
fn malformed_message_gives_diagnostic() {
    let (tx, mut rx) = mpsc::unbounded::<String>();
    tx.unbounded_send("hello there".to_string()).unwrap();
    match poll_tick(&mut rx) {
        PollReport::Diagnostic(e, raw) => {
            assert_eq!(e, PollError::MalformedMessage);
            assert_eq!(diagnostic_text(&e, raw.as_str()), "message not progress: hello there");
        },
        _ => panic!("expected a diagnostic"),
    }
}

#[test]
fn zero_total_gives_diagnostic() {
    let (tx, mut rx) = mpsc::unbounded::<String>();
    tx.unbounded_send("Progress|5|0".to_string()).unwrap();
    match poll_tick(&mut rx) {
        PollReport::Diagnostic(e, raw) => {
            assert_eq!(e, PollError::ZeroTotal);
            assert_eq!(diagnostic_text(&e, raw.as_str()), "progress total is zero: Progress|5|0");
        },
        _ => panic!("expected a diagnostic"),
    }
}

#[test]
fn drain_preserves_channel_order() {
    let (tx, mut rx) = mpsc::unbounded::<String>();
    tx.unbounded_send("a".to_string()).unwrap();
    tx.unbounded_send("b".to_string()).unwrap();
    tx.unbounded_send("c".to_string()).unwrap();
    let msgs = drain_messages(&mut rx);
    assert_eq!(msgs, vec!["a".to_string(), "b".to_string(), "c".to_string()]);
}

#[test]
fn report_from_messages_picks_last() {
    let msgs = vec!["Progress|1|4".to_string(), "Progress|2|4".to_string()];
    match report_from_messages(&msgs) {
        PollReport::Updated(u) => assert_eq!(u, ProgressUpdate { processed: 2, total: 4 }),
        _ => panic!("expected an update"),
    }
    assert!(matches!(report_from_messages(&Vec::new()), PollReport::NoMessage));
}
