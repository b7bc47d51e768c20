use conv1080::batch::{push_progress, BatchConverter, StepAction};
use conv1080::poller::drain_messages;
use futures::channel::mpsc;

fn merge_list(n: usize) -> String {
    let mut text = String::new();
    for i in 0..n {
        text.push_str(&format!("Ximg{}.png | extra\n", i));
    }
    text
}

#[test]
fn all_good_entries_all_processed() {
    let list = merge_list(7);
    let mut c = BatchConverter::new("in", "out", &list);
    assert_eq!(c.total_entries(), 7);
    while c.is_active() {
        match c.advance(true, false) {
            StepAction::LaunchAsync(_) | StepAction::LaunchSync(_, _) => {},
            _ => panic!("unexpected abort"),
        }
    }
    assert_eq!(c.processed_count(), 7);
    let r = c.result(2);
    assert!(r.success);
    assert_eq!(r.summary, "converted copied 7 files in 2 seconds");
    assert_eq!(r.duration_seconds, 2);
}

#[test]
fn twelve_entries_emit_exactly_two_messages() {
    let list = merge_list(12);
    let mut c = BatchConverter::new("in", "out", &list);
    let mut messages: Vec<String> = Vec::new();
    let mut actions: Vec<bool> = Vec::new();
    while c.is_active() {
        match c.advance(true, false) {
            StepAction::LaunchAsync(_) => actions.push(false),
            StepAction::LaunchSync(_, m) => {
                actions.push(true);
                messages.push(m);
            },
            _ => panic!("unexpected abort"),
        }
    }
    assert_eq!(c.processed_count(), 12);
    assert_eq!(messages, vec!["Progress|4|12".to_string(), "Progress|9|12".to_string()]);
    let expected: Vec<bool> = (0..12).map(|i| i % 5 == 4).collect();
    assert_eq!(actions, expected);
}

#[test]
fn missing_source_aborts_after_k_minus_one() {
    let list = merge_list(5);
    let mut c = BatchConverter::new("in", "out", &list);
    for _ in 0..2 {
        match c.advance(true, false) {
            StepAction::LaunchAsync(_) => {},
            _ => panic!("unexpected action"),
        }
    }
    match c.advance(false, false) {
        StepAction::AbortMissingSource(p) => assert_eq!(p, "in/img2.png"),
        _ => panic!("expected a missing-source abort"),
    }
    assert_eq!(c.processed_count(), 2);
    assert!(!c.is_active());
    assert!(c.next_job().is_none());
    let r = c.result(0);
    assert!(!r.success);
    assert_eq!(r.summary, "********* convert Copy: ERROR in/img2.png does not exist **********");
}

#[test]
fn existing_destination_aborts() {
    let list = merge_list(3);
    let mut c = BatchConverter::new("in", "out", &list);
    match c.advance(true, true) {
        StepAction::AbortDestinationExists(p) => assert_eq!(p, "out/Ximg0.png"),
        _ => panic!("expected a destination abort"),
    }
    assert_eq!(c.processed_count(), 0);
    let r = c.result(0);
    assert!(!r.success);
    assert_eq!(r.summary, "********* convert Copy: ERROR out/Ximg0.png already exists **********");
}

#[test]
fn window_is_four_async_then_one_sync() {
    let list = merge_list(5);
    let mut c = BatchConverter::new("in", "out", &list);
    for _ in 0..4 {
        assert!(matches!(c.advance(true, false), StepAction::LaunchAsync(_)));
    }
    match c.advance(true, false) {
        StepAction::LaunchSync(_, m) => assert_eq!(m, "Progress|4|5"),
        _ => panic!("fifth entry must be synchronous"),
    }
    assert!(!c.is_active());
}

#[test]
fn source_drops_flag_destination_keeps_it() {
    let list = "Xfoo.png | junk\n";
    let mut c = BatchConverter::new("in", "out", list);
    let job = c.next_job().unwrap();
    assert_eq!(job.source_path, "in/foo.png");
    assert_eq!(job.dest_path, "out/Xfoo.png");
    assert!(matches!(c.advance(true, false), StepAction::LaunchAsync(_)));
}

#[test]
fn piece_after_final_newline_is_discarded() {
    let c = BatchConverter::new("in", "out", "Xa.png | f\n");
    assert_eq!(c.total_entries(), 1);
    let no_newline = BatchConverter::new("in", "out", "Xa.png | f");
    assert_eq!(no_newline.total_entries(), 0);
    let empty = BatchConverter::new("in", "out", "");
    assert_eq!(empty.total_entries(), 0);
    let r = empty.result(0);
    assert!(r.success);
    assert_eq!(r.summary, "converted copied 0 files in 0 seconds");
}

#[test]
fn jobs_carry_the_fixed_parameters() {
    let list = merge_list(1);
    let c = BatchConverter::new("in", "out", &list);
    let job = c.next_job().unwrap();
    assert_eq!(job.target_width, 1920);
    assert_eq!(job.target_height, 1080);
    assert_eq!(job.geometry(), "1920x1080");
    assert_eq!(job.background(), "black");
    assert_eq!(job.gravity(), "center");
}

#[test]
fn spawn_failure_is_a_reported_failure() {
    let list = merge_list(2);
    let mut c = BatchConverter::new("in", "out", &list);
    let job = c.next_job().unwrap();
    assert!(matches!(c.advance(true, false), StepAction::LaunchAsync(_)));
    c.record_spawn_failure(job.source_path.as_str());
    assert!(!c.is_active());
    let r = c.result(1);
    assert!(!r.success);
    assert_eq!(
        r.summary,
        "********* convert Copy: ERROR could not start convert for in/img0.png **********"
    );
}

#[test]
fn closed_channel_is_fatal_to_the_batch() {
    let (tx, rx) = mpsc::unbounded::<String>();
    drop(rx);
    assert!(!push_progress(&tx, "Progress|4|5".to_string()));
    let list = merge_list(6);
    let mut c = BatchConverter::new("in", "out", &list);
    c.record_channel_closed();
    assert!(!c.is_active());
    let r = c.result(0);
    assert!(!r.success);
    assert_eq!(r.summary, "********* convert Copy: ERROR progress channel closed **********");
}

#[test]
fn pushed_progress_reaches_the_channel() {
    let (tx, mut rx) = mpsc::unbounded::<String>();
    assert!(push_progress(&tx, "Progress|4|12".to_string()));
    let msgs = drain_messages(&mut rx);
    assert_eq!(msgs, vec!["Progress|4|12".to_string()]);
}
