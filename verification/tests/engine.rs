use nostr_articles::accumulator::Mode;
use nostr_articles::accumulator::ResultAccumulator;
use nostr_articles::coordinator::run;
use nostr_articles::coordinator::QueryCoordinator;
use nostr_articles::coordinator::Reason;
use nostr_articles::coordinator::TimedNotification;
use nostr_articles::deadline::Deadline;
use nostr_articles::matcher::classify;
use nostr_articles::matcher::Classification;
use nostr_articles::matcher::EventPayload;
use nostr_articles::matcher::EventRecord;
use nostr_articles::matcher::InboundNotification;

fn timed(at_ms: u64, notification: InboundNotification) -> TimedNotification {
    TimedNotification { at_ms, notification }
}

fn event_for(sub: &str, id: &str, relay: &str) -> InboundNotification {
    InboundNotification::Event {
        subscription_id: sub.to_string(),
        event: EventPayload { id: id.to_string(), tags: vec!["d my-article".to_string()] },
        relay_origin: relay.to_string(),
    }
}

fn eose_for(sub: &str) -> InboundNotification {
    InboundNotification::EndOfStoredEvents { subscription_id: sub.to_string() }
}

fn record(id: &str, relay: &str) -> EventRecord {
    EventRecord {
        id: id.to_string(),
        tags: vec!["d my-article".to_string()],
        relay: relay.to_string(),
    }
}

#[test]
fn remaining_is_clamped_at_zero() {
    assert_eq!(Deadline::remaining_at(10_000, 2_000), 8_000);
    assert_eq!(Deadline::remaining_at(10_000, 10_000), 0);
    assert_eq!(Deadline::remaining_at(10_000, 25_000), 0);
    assert_eq!(Deadline::remaining_at(0, 0), 0);
    assert_eq!(Deadline::remaining_at(u64::MAX, 1), u64::MAX - 1);
}

#[test]
fn live_deadline_stays_within_budget() {
    let deadline = Deadline::new(10_000);
    let r = deadline.remaining();
    assert!(r <= 10_000);
    assert!(!deadline.expired());
}

#[test]
fn classify_matches_only_the_target_subscription() {
    let target = "sub-1".to_string();
    match classify(event_for("sub-1", "E1", "wss://r1"), &target) {
        Classification::Matched(rec) => {
            assert_eq!(rec.id, "E1");
            assert_eq!(rec.relay, "wss://r1");
            assert_eq!(rec.tags, vec!["d my-article".to_string()]);
        }
        _ => panic!("an event of the target subscription must match"),
    }
    assert!(matches!(
        classify(event_for("sub-2", "E1", "wss://r1"), &target),
        Classification::Ignore
    ));
}

#[test]
fn classify_end_of_stream_needs_the_target_identifier() {
    let target = "sub-1".to_string();
    assert!(matches!(classify(eose_for("sub-1"), &target), Classification::EndOfStream));
    assert!(matches!(classify(eose_for("sub-2"), &target), Classification::Ignore));
    assert!(matches!(classify(InboundNotification::Other, &target), Classification::Ignore));
}

#[test]
fn deduplicated_mode_keeps_one_record_per_identifier() {
    let mut acc = ResultAccumulator::new(Mode::Deduplicated);
    acc.insert(record("E1", "wss://r1"));
    acc.insert(record("E1", "wss://r2"));
    acc.insert(record("E1", "wss://r3"));
    let out = acc.drain();
    assert_eq!(out.len(), 1);
    assert_eq!(out[0], record("E1", "wss://r1"));
}

#[test]
fn relay_attributed_mode_keeps_every_arrival_in_order() {
    let mut acc = ResultAccumulator::new(Mode::RelayAttributed);
    acc.insert(record("E1", "wss://r1"));
    acc.insert(record("E1", "wss://r2"));
    let out = acc.drain();
    assert_eq!(out.len(), 2);
    assert_eq!(out[0], record("E1", "wss://r1"));
    assert_eq!(out[1], record("E1", "wss://r2"));
}

#[test]
fn end_of_stream_before_deadline_collects_matched_events() {
    let sub = "sub-1".to_string();
    let feed = vec![
        timed(1_000, event_for("sub-1", "E1", "wss://r1")),
        timed(1_200, eose_for("sub-1")),
    ];
    let out = run(&sub, Mode::Deduplicated, 10_000, feed);
    assert_eq!(out.outcome.reason, Reason::CompletedByEndOfStream);
    assert_eq!(out.outcome.records.len(), 1);
    assert_eq!(out.outcome.records[0].id, "E1");
    assert_eq!(out.unsubscribed, vec!["sub-1".to_string()]);
}

#[test]
fn empty_stream_completes_by_timeout_with_no_records() {
    let sub = "sub-1".to_string();
    let out = run(&sub, Mode::Deduplicated, 10_000, Vec::new());
    assert_eq!(out.outcome.reason, Reason::CompletedByTimeout);
    assert!(out.outcome.records.is_empty());
    assert_eq!(out.unsubscribed, vec!["sub-1".to_string()]);
}

#[test]
fn duplicate_event_from_two_relays_collapses_in_deduplicated_mode() {
    let sub = "sub-1".to_string();
    let feed = vec![
        timed(1_000, event_for("sub-1", "E1", "wss://r1")),
        timed(2_000, event_for("sub-1", "E1", "wss://r2")),
        timed(2_100, eose_for("sub-1")),
    ];
    let out = run(&sub, Mode::Deduplicated, 10_000, feed);
    assert_eq!(out.outcome.reason, Reason::CompletedByEndOfStream);
    assert_eq!(out.outcome.records.len(), 1);
    assert_eq!(out.outcome.records[0].id, "E1");
    assert_eq!(out.outcome.records[0].relay, "wss://r1");
}

#[test]
fn duplicate_event_from_two_relays_stays_in_relay_attributed_mode() {
    let sub = "sub-1".to_string();
    let feed = vec![
        timed(1_000, event_for("sub-1", "E1", "wss://r1")),
        timed(2_000, event_for("sub-1", "E1", "wss://r2")),
        timed(2_100, eose_for("sub-1")),
    ];
    let out = run(&sub, Mode::RelayAttributed, 10_000, feed);
    assert_eq!(out.outcome.reason, Reason::CompletedByEndOfStream);
    assert_eq!(out.outcome.records.len(), 2);
    assert_eq!(out.outcome.records[0].id, "E1");
    assert_eq!(out.outcome.records[0].relay, "wss://r1");
    assert_eq!(out.outcome.records[1].id, "E1");
    assert_eq!(out.outcome.records[1].relay, "wss://r2");
}

#[test]
fn notifications_past_the_budget_mean_timeout() {
    let sub = "sub-1".to_string();
    let feed = vec![
        timed(1_000, event_for("sub-1", "E1", "wss://r1")),
        timed(11_000, event_for("sub-1", "E2", "wss://r1")),
        timed(12_000, eose_for("sub-1")),
    ];
    let out = run(&sub, Mode::Deduplicated, 10_000, feed);
    assert_eq!(out.outcome.reason, Reason::CompletedByTimeout);
    assert_eq!(out.outcome.records.len(), 1);
    assert_eq!(out.outcome.records[0].id, "E1");
    assert_eq!(out.unsubscribed, vec!["sub-1".to_string()]);
}

#[test]
fn unrelated_traffic_is_ignored_not_misattributed() {
    let sub = "sub-1".to_string();
    let feed = vec![
        timed(500, event_for("sub-2", "E9", "wss://r1")),
        timed(600, eose_for("sub-2")),
        timed(700, InboundNotification::Other),
        timed(1_000, event_for("sub-1", "E1", "wss://r1")),
        timed(1_200, eose_for("sub-1")),
    ];
    let out = run(&sub, Mode::Deduplicated, 10_000, feed);
    assert_eq!(out.outcome.reason, Reason::CompletedByEndOfStream);
    assert_eq!(out.outcome.records.len(), 1);
    assert_eq!(out.outcome.records[0].id, "E1");
}

#[test]
fn stream_that_closes_early_completes_by_timeout() {
    let sub = "sub-1".to_string();
    let feed = vec![timed(1_000, event_for("sub-1", "E1", "wss://r1"))];
    let out = run(&sub, Mode::Deduplicated, 10_000, feed);
    assert_eq!(out.outcome.reason, Reason::CompletedByTimeout);
    assert_eq!(out.outcome.records.len(), 1);
    assert_eq!(out.unsubscribed, vec!["sub-1".to_string()]);
}

#[test]
fn coordinator_steps_mirror_the_stream() {
    let mut coordinator = QueryCoordinator::new("sub-1".to_string(), Mode::Deduplicated);
    assert!(!coordinator.is_done());
    coordinator.on_notification(event_for("sub-1", "E1", "wss://r1"));
    assert!(!coordinator.is_done());
    coordinator.on_notification(eose_for("sub-1"));
    assert!(coordinator.is_done());
    let outcome = coordinator.finish();
    assert_eq!(outcome.reason, Reason::CompletedByEndOfStream);
    assert_eq!(outcome.records.len(), 1);
    assert_eq!(outcome.records[0].id, "E1");
}

#[test]
fn coordinator_deadline_and_closed_stream_complete_by_timeout() {
    let mut by_deadline = QueryCoordinator::new("sub-1".to_string(), Mode::Deduplicated);
    by_deadline.on_deadline();
    assert!(by_deadline.is_done());
    assert_eq!(by_deadline.finish().reason, Reason::CompletedByTimeout);

    let mut by_closed = QueryCoordinator::new("sub-1".to_string(), Mode::RelayAttributed);
    by_closed.on_stream_closed();
    assert!(by_closed.is_done());
    assert_eq!(by_closed.finish().reason, Reason::CompletedByTimeout);
}
