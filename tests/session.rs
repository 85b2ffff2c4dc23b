use fetch_progress::aggregator::{Aggregator, Delivery};
use fetch_progress::codec::decode_line;
use fetch_progress::drainer::Drainer;
use fetch_progress::event::{ProgressEvent, Stream};
use fetch_progress::session::{Session, SessionResult};

fn song_start(i: u64) -> String {
    format!(">>>PROGRESS:{{\"type\":\"song_start\",\"index\":{},\"total\":5,\"title\":\"t{}\"}}", i, i)
}

fn drain_all(agg: &mut Aggregator) -> Vec<ProgressEvent> {
    let mut out = Vec::new();
    loop {
        match agg.next() {
            Delivery::Event(e) => out.push(e),
            Delivery::Wait => panic!("a producer is still live"),
            Delivery::Exhausted => return out,
        }
    }
}

#[test]
fn drainer_forwards_events_and_keeps_plain_output() {
    let mut d = Drainer::new();
    assert!(d.feed("starting").is_none());
    assert!(d.feed(&song_start(1)).is_some());
    assert!(d.feed(">>>PROGRESS:{broken").is_none());
    assert!(d.feed(&song_start(2)).is_some());
    assert!(d.feed("done").is_none());
    assert_eq!(d.into_captured(), "starting\ndone\n");
}

#[test]
fn plain_line_does_not_disturb_following_lines() {
    let mut d = Drainer::new();
    assert!(d.feed("hello world").is_none());
    match d.feed(&song_start(3)) {
        Some(ProgressEvent::SongStart { index, .. }) => assert_eq!(index, 3),
        _ => panic!("expected song_start"),
    }
}

#[test]
fn events_from_two_channels_all_arrive_once_both_finish() {
    let primary = vec![song_start(1), "log".to_string(), song_start(3)];
    let diagnostic = vec![song_start(2), ">>>PROGRESS:{\"type\":\"nope\"}".to_string(), song_start(4), song_start(5)];
    let mut agg = Aggregator::new();
    let mut dp = Drainer::new();
    let mut dd = Drainer::new();
    for l in &primary {
        if let Some(e) = dp.feed(l) {
            agg.publish(Stream::Primary, e);
        }
    }
    assert!(matches!(agg.next(), Delivery::Event(_)));
    agg.producer_finished(Stream::Primary);
    assert!(matches!(agg.next(), Delivery::Event(_)));
    assert!(matches!(agg.next(), Delivery::Wait));
    for l in &diagnostic {
        if let Some(e) = dd.feed(l) {
            agg.publish(Stream::Diagnostic, e);
        }
    }
    agg.producer_finished(Stream::Diagnostic);
    let rest = drain_all(&mut agg);
    assert_eq!(rest.len(), 3);
    assert!(matches!(agg.next(), Delivery::Exhausted));

    let mut s = Session::new();
    s.process_exited(Some(0));
    assert!(s.result().is_none());
    s.drainer_finished(Stream::Primary, dp.into_captured());
    assert!(s.result().is_none());
    s.drainer_finished(Stream::Diagnostic, dd.into_captured());
    assert_eq!(s.result(), Some(SessionResult::Completed("log\n".to_string())));
}

#[test]
fn aggregator_keeps_arrival_order() {
    let mut agg = Aggregator::new();
    agg.producer_finished(Stream::Diagnostic);
    for i in 0..4u64 {
        if let fetch_progress::codec::LineOutcome::Event(e) = decode_line(&song_start(i)) {
            agg.publish(Stream::Primary, e);
        }
    }
    agg.producer_finished(Stream::Primary);
    let got: Vec<u64> = drain_all(&mut agg)
        .into_iter()
        .map(|e| match e {
            ProgressEvent::SongStart { index, .. } => index,
            _ => panic!("unexpected event"),
        })
        .collect();
    assert_eq!(got, vec![0, 1, 2, 3]);
}

#[test]
fn aggregator_waits_for_both_producers() {
    let mut agg = Aggregator::new();
    assert!(matches!(agg.next(), Delivery::Wait));
    agg.producer_finished(Stream::Primary);
    assert!(matches!(agg.next(), Delivery::Wait));
    agg.producer_finished(Stream::Diagnostic);
    assert!(matches!(agg.next(), Delivery::Exhausted));
}

#[test]
fn exit_code_three_fails_with_three() {
    for with_progress in [false, true] {
        let mut dd = Drainer::new();
        dd.feed("error: not found");
        if with_progress {
            dd.feed(&song_start(1));
        }
        let mut s = Session::new();
        s.drainer_finished(Stream::Primary, String::new());
        s.drainer_finished(Stream::Diagnostic, dd.into_captured());
        s.process_exited(Some(3));
        assert_eq!(s.result(), Some(SessionResult::Failed("error: not found\n".to_string(), Some(3))));
    }
}

#[test]
fn signalled_exit_fails_without_code() {
    let mut s = Session::new();
    s.drainer_finished(Stream::Diagnostic, "x".to_string());
    s.drainer_finished(Stream::Primary, "y".to_string());
    s.process_exited(None);
    assert_eq!(s.result(), Some(SessionResult::Failed("x".to_string(), None)));
}

#[test]
fn second_reports_are_ignored() {
    let mut s = Session::new();
    s.drainer_finished(Stream::Primary, "first".to_string());
    s.drainer_finished(Stream::Primary, "second".to_string());
    s.drainer_finished(Stream::Diagnostic, String::new());
    s.process_exited(Some(0));
    s.process_exited(Some(1));
    assert_eq!(s.result(), Some(SessionResult::Completed("first".to_string())));
}

#[test]
fn two_sessions_stay_apart() {
    let mut a = Aggregator::new();
    let mut b = Aggregator::new();
    if let fetch_progress::codec::LineOutcome::Event(e) = decode_line(&song_start(7)) {
        a.publish(Stream::Diagnostic, e);
    }
    for s in [Stream::Primary, Stream::Diagnostic] {
        a.producer_finished(s);
        b.producer_finished(s);
    }
    assert!(matches!(b.next(), Delivery::Exhausted));
    assert_eq!(drain_all(&mut a).len(), 1);
    let mut sa = Session::new();
    let mut sb = Session::new();
    sa.drainer_finished(Stream::Primary, "a".to_string());
    sa.drainer_finished(Stream::Diagnostic, String::new());
    sa.process_exited(Some(0));
    sb.drainer_finished(Stream::Primary, String::new());
    sb.drainer_finished(Stream::Diagnostic, "b".to_string());
    sb.process_exited(Some(2));
    assert_eq!(sa.result(), Some(SessionResult::Completed("a".to_string())));
    assert_eq!(sb.result(), Some(SessionResult::Failed("b".to_string(), Some(2))));
}
