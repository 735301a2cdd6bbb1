//! The query coordinator: drives one subscription through its lifecycle.
//!
//! A query opens a subscription, then repeatedly races the next inbound
//! notification against the remaining deadline. A matched event is inserted
//! into the accumulator; the subscription's own end-of-stored-events marker
//! completes the query; deadline expiry — and a notification stream that
//! closes before either — completes it as a timeout. The subscription is
//! released exactly once on every exit path, before the outcome is returned.
//!
//! The decisions live here, as transitions of [`QueryCoordinator`]; the caller
//! that owns the transport performs the waiting and feeds each notification
//! (or the deadline's expiry) in. [`run`] plays those same decisions over a
//! recorded stream, each notification stamped with its arrival time, and
//! returns exactly the outcome of [`spec_run`].

use vstd::prelude::*;

use crate::accumulator::Mode;
use crate::accumulator::ResultAccumulator;
use crate::accumulator::spec_insert;
use crate::accumulator::spec_insert_all;
use crate::matcher::Classification;
use crate::matcher::ClassificationView;
use crate::matcher::EventRecord;
use crate::matcher::EventRecordView;
use crate::matcher::InboundNotification;
use crate::matcher::NotificationView;
use crate::matcher::classify;
use crate::matcher::spec_classify;

verus! {

/// Which termination condition fired first.
#[derive(Clone, Copy, PartialEq, Eq, Structural, Debug)]
pub enum Reason {
    /// The relay signalled the end of its stored events for this subscription.
    CompletedByEndOfStream,
    /// The deadline expired (or the stream closed) before any such signal.
    CompletedByTimeout,
}

/// A fatal failure of a query: the subscription could not be registered, so
/// nothing was opened and there is nothing to clean up.
#[derive(Clone, Copy, PartialEq, Eq, Structural, Debug)]
pub enum QueryError {
    SubscribeFailed,
}

/// What a completed query hands back: the collected records and which
/// termination condition fired.
pub struct QueryOutcome {
    pub records: Vec<EventRecord>,
    pub reason: Reason,
}

/// Mathematical value of a [`QueryOutcome`].
pub struct QueryOutcomeView {
    pub records: Seq<EventRecordView>,
    pub reason: Reason,
}

impl View for QueryOutcome {
    type V = QueryOutcomeView;

    open spec fn view(&self) -> QueryOutcomeView {
        QueryOutcomeView { records: self.records.deep_view(), reason: self.reason }
    }
}

/// One notification of a recorded stream, stamped with the moment of its
/// arrival, in milliseconds from the start of the query's budget.
pub struct TimedNotification {
    pub at_ms: u64,
    pub notification: InboundNotification,
}

/// Mathematical value of a [`TimedNotification`].
pub struct TimedNotificationView {
    pub at_ms: u64,
    pub notification: NotificationView,
}

impl View for TimedNotification {
    type V = TimedNotificationView;

    open spec fn view(&self) -> TimedNotificationView {
        TimedNotificationView { at_ms: self.at_ms, notification: self.notification@ }
    }
}

impl DeepView for TimedNotification {
    type V = TimedNotificationView;

    open spec fn deep_view(&self) -> TimedNotificationView {
        self@
    }
}

/// The state of one query between two awaited events.
pub struct QueryCoordinator {
    target: String,
    acc: ResultAccumulator,
    done: Option<Reason>,
}

impl QueryCoordinator {
    /// The subscription identifier this query collects for.
    pub closed spec fn target_spec(&self) -> Seq<char> {
        self.target@
    }

    /// The accumulation mode of this query.
    pub closed spec fn mode(&self) -> Mode {
        self.acc.mode()
    }

    /// The records collected so far, in the order they were kept.
    pub closed spec fn records(&self) -> Seq<EventRecordView> {
        self.acc@
    }

    /// The termination condition, once one has fired.
    pub closed spec fn done(&self) -> Option<Reason> {
        self.done
    }

    /// In deduplicated mode the collected records never repeat an identifier.
    pub closed spec fn inv(&self) -> bool {
        self.acc.well_formed()
    }

    /// A fresh query for one subscription: nothing collected, no termination
    /// condition fired.
    pub fn new(subscription_id: String, mode: Mode) -> (c: QueryCoordinator)
        ensures
            c.target_spec() == subscription_id@,
            c.mode() == mode,
            c.records() == Seq::<EventRecordView>::empty(),
            c.done() is None,
            c.inv(),
    {
        QueryCoordinator {
            target: subscription_id,
            acc: ResultAccumulator::new(mode),
            done: None,
        }
    }

    /// Whether a termination condition has fired.
    pub fn is_done(&self) -> (r: bool)
        ensures
            r == (self.done() is Some),
    {
        self.done.is_some()
    }

    /// Feeds one inbound notification to the query: a matched event is
    /// inserted (deduplicating per mode), this subscription's
    /// end-of-stored-events marker completes the query, and everything else is
    /// ignored.
    pub fn on_notification(&mut self, n: InboundNotification)
        requires
            old(self).inv(),
            old(self).done() is None,
        ensures
            final(self).inv(),
            final(self).target_spec() == old(self).target_spec(),
            final(self).mode() == old(self).mode(),
            match spec_classify(n@, old(self).target_spec()) {
                ClassificationView::Matched(rec) => {
                    &&& final(self).records() == spec_insert(
                        old(self).mode(),
                        old(self).records(),
                        rec,
                    )
                    &&& final(self).done() is None
                },
                ClassificationView::EndOfStream => {
                    &&& final(self).records() == old(self).records()
                    &&& final(self).done() == Some(Reason::CompletedByEndOfStream)
                },
                ClassificationView::Ignore => {
                    &&& final(self).records() == old(self).records()
                    &&& final(self).done() is None
                },
            },
    {
        match classify(n, &self.target) {
            Classification::Matched(rec) => {
                self.acc.insert(rec);
            },
            Classification::EndOfStream => {
                self.done = Some(Reason::CompletedByEndOfStream);
            },
            Classification::Ignore => {},
        }
    }

    /// The deadline expired before any terminating notification: the query
    /// completes as a timeout, keeping everything collected so far.
    pub fn on_deadline(&mut self)
        requires
            old(self).inv(),
            old(self).done() is None,
        ensures
            final(self).inv(),
            final(self).target_spec() == old(self).target_spec(),
            final(self).mode() == old(self).mode(),
            final(self).records() == old(self).records(),
            final(self).done() == Some(Reason::CompletedByTimeout),
    {
        self.done = Some(Reason::CompletedByTimeout);
    }

    /// The notification stream closed before either terminal condition: no
    /// further results can arrive, so the query completes exactly as a
    /// timeout.
    pub fn on_stream_closed(&mut self)
        requires
            old(self).inv(),
            old(self).done() is None,
        ensures
            final(self).inv(),
            final(self).target_spec() == old(self).target_spec(),
            final(self).mode() == old(self).mode(),
            final(self).records() == old(self).records(),
            final(self).done() == Some(Reason::CompletedByTimeout),
    {
        self.on_deadline();
    }

    /// Drains the accumulator into the outcome. Consumes the query, so an
    /// outcome is produced at most once per coordinator.
    pub fn finish(self) -> (out: QueryOutcome)
        requires
            self.done() is Some,
        ensures
            out@.records == self.records(),
            Some(out@.reason) == self.done(),
    {
        let reason = match self.done {
            Some(r) => r,
            None => Reason::CompletedByTimeout,
        };
        QueryOutcome { records: self.acc.drain(), reason }
    }
}

/// The outcome of a query over a recorded stream: the coordinator's
/// transitions played out against notifications stamped with their arrival
/// times. A notification that arrives within the budget is processed first;
/// one that arrives past the budget means the deadline fired first; a stream
/// that ends without a terminating marker completes as a timeout.
pub open spec fn spec_run(
    target: Seq<char>,
    mode: Mode,
    budget_ms: u64,
    feed: Seq<TimedNotificationView>,
    acc: Seq<EventRecordView>,
) -> QueryOutcomeView
    decreases feed.len(),
{
    if feed.len() == 0 {
        QueryOutcomeView { records: acc, reason: Reason::CompletedByTimeout }
    } else if feed[0].at_ms > budget_ms {
        QueryOutcomeView { records: acc, reason: Reason::CompletedByTimeout }
    } else {
        match spec_classify(feed[0].notification, target) {
            ClassificationView::Matched(rec) => spec_run(
                target,
                mode,
                budget_ms,
                feed.drop_first(),
                spec_insert(mode, acc, rec),
            ),
            ClassificationView::EndOfStream => QueryOutcomeView {
                records: acc,
                reason: Reason::CompletedByEndOfStream,
            },
            ClassificationView::Ignore => spec_run(
                target,
                mode,
                budget_ms,
                feed.drop_first(),
                acc,
            ),
        }
    }
}

/// Whether this stream item terminates a query for `target`: it is the
/// end-of-stored-events marker of that very subscription.
pub open spec fn is_terminator(t: TimedNotificationView, target: Seq<char>) -> bool {
    spec_classify(t.notification, target) is EndOfStream
}

/// The records of the events that match `target` in `feed`, in arrival order,
/// before any accumulation.
pub open spec fn matched_records(
    target: Seq<char>,
    feed: Seq<TimedNotificationView>,
) -> Seq<EventRecordView>
    decreases feed.len(),
{
    if feed.len() == 0 {
        Seq::empty()
    } else {
        match spec_classify(feed[0].notification, target) {
            ClassificationView::Matched(rec) => seq![rec] + matched_records(
                target,
                feed.drop_first(),
            ),
            ClassificationView::EndOfStream => matched_records(target, feed.drop_first()),
            ClassificationView::Ignore => matched_records(target, feed.drop_first()),
        }
    }
}

/// Inserting a first record and then the rest is inserting them all.
proof fn lemma_insert_all_cons(
    mode: Mode,
    acc: Seq<EventRecordView>,
    rec: EventRecordView,
    rest: Seq<EventRecordView>,
)
    ensures
        spec_insert_all(mode, acc, seq![rec] + rest) == spec_insert_all(
            mode,
            spec_insert(mode, acc, rec),
            rest,
        ),
{
    let whole = seq![rec] + rest;
    assert(whole.len() == rest.len() + 1);
    assert(whole[0] == rec);
    assert(whole.drop_first() =~= rest);
    assert(spec_insert_all(mode, acc, whole) == spec_insert_all(
        mode,
        spec_insert(mode, acc, whole[0]),
        whole.drop_first(),
    ));
}

/// [`lemma_end_of_stream_completion`], generalized over what was already
/// collected when the remaining `feed` begins.
proof fn lemma_run_end_of_stream_from(
    target: Seq<char>,
    mode: Mode,
    budget_ms: u64,
    feed: Seq<TimedNotificationView>,
    i: int,
    acc: Seq<EventRecordView>,
)
    requires
        0 <= i < feed.len(),
        is_terminator(feed[i], target),
        forall|j: int| 0 <= j < i ==> !is_terminator(#[trigger] feed[j], target),
        forall|j: int| 0 <= j <= i ==> (#[trigger] feed[j]).at_ms <= budget_ms,
    ensures
        spec_run(target, mode, budget_ms, feed, acc) == (QueryOutcomeView {
            records: spec_insert_all(mode, acc, matched_records(target, feed.take(i))),
            reason: Reason::CompletedByEndOfStream,
        }),
    decreases i,
{
    let head = feed[0];
    assert(head.at_ms <= budget_ms);
    if i == 0 {
        assert(feed.take(0) =~= Seq::<TimedNotificationView>::empty());
        assert(matched_records(target, feed.take(0)) == Seq::<EventRecordView>::empty());
        assert(spec_insert_all(mode, acc, Seq::empty()) == acc);
    } else {
        assert(!is_terminator(feed[0], target));
        let rest = feed.drop_first();
        let pre = feed.take(i);
        assert(pre[0] == head);
        assert(pre.drop_first() =~= rest.take(i - 1));
        assert(rest[i - 1] == feed[i]);
        assert(forall|j: int| 0 <= j < i - 1 ==> !is_terminator(#[trigger] rest[j], target)) by {
            assert(forall|j: int| 0 <= j < i - 1 ==> #[trigger] rest[j] == feed[j + 1]);
        }
        assert(forall|j: int| 0 <= j <= i - 1 ==> (#[trigger] rest[j]).at_ms <= budget_ms) by {
            assert(forall|j: int| 0 <= j <= i - 1 ==> #[trigger] rest[j] == feed[j + 1]);
        }
        match spec_classify(head.notification, target) {
            ClassificationView::Matched(rec) => {
                lemma_run_end_of_stream_from(
                    target,
                    mode,
                    budget_ms,
                    rest,
                    i - 1,
                    spec_insert(mode, acc, rec),
                );
                assert(matched_records(target, pre) == seq![rec] + matched_records(
                    target,
                    rest.take(i - 1),
                ));
                lemma_insert_all_cons(mode, acc, rec, matched_records(target, rest.take(i - 1)));
            },
            ClassificationView::EndOfStream => {
                assert(false);
            },
            ClassificationView::Ignore => {
                lemma_run_end_of_stream_from(target, mode, budget_ms, rest, i - 1, acc);
                assert(matched_records(target, pre) == matched_records(target, rest.take(i - 1)));
            },
        }
    }
}

/// A recorded stream whose `i`-th notification is the first
/// end-of-stored-events marker for the target subscription, arriving — like
/// everything before it — within the budget, completes by end of stream, and
/// the collected records are exactly the matched events seen before that
/// marker, accumulated in the query's mode.
pub proof fn lemma_end_of_stream_completion(
    target: Seq<char>,
    mode: Mode,
    budget_ms: u64,
    feed: Seq<TimedNotificationView>,
    i: int,
)
    requires
        0 <= i < feed.len(),
        is_terminator(feed[i], target),
        forall|j: int| 0 <= j < i ==> !is_terminator(#[trigger] feed[j], target),
        forall|j: int| 0 <= j <= i ==> (#[trigger] feed[j]).at_ms <= budget_ms,
    ensures
        spec_run(target, mode, budget_ms, feed, Seq::empty()) == (QueryOutcomeView {
            records: spec_insert_all(
                mode,
                Seq::empty(),
                matched_records(target, feed.take(i)),
            ),
            reason: Reason::CompletedByEndOfStream,
        }),
{
    lemma_run_end_of_stream_from(target, mode, budget_ms, feed, i, Seq::empty());
}

/// [`lemma_timeout_completion`], generalized over what was already collected.
proof fn lemma_run_timeout_from(
    target: Seq<char>,
    mode: Mode,
    budget_ms: u64,
    feed: Seq<TimedNotificationView>,
    acc: Seq<EventRecordView>,
)
    requires
        forall|j: int| 0 <= j < feed.len() ==> !(is_terminator(#[trigger] feed[j], target)
            && feed[j].at_ms <= budget_ms),
    ensures
        spec_run(target, mode, budget_ms, feed, acc).reason == Reason::CompletedByTimeout,
    decreases feed.len(),
{
    if feed.len() == 0 {
    } else if feed[0].at_ms > budget_ms {
    } else {
        assert(!is_terminator(feed[0], target));
        let rest = feed.drop_first();
        assert(forall|j: int| 0 <= j < rest.len() ==> !(is_terminator(#[trigger] rest[j], target)
            && rest[j].at_ms <= budget_ms)) by {
            assert(forall|j: int| 0 <= j < rest.len() ==> #[trigger] rest[j] == feed[j + 1]);
        }
        match spec_classify(feed[0].notification, target) {
            ClassificationView::Matched(rec) => {
                lemma_run_timeout_from(target, mode, budget_ms, rest, spec_insert(mode, acc, rec));
            },
            ClassificationView::EndOfStream => {
                assert(false);
            },
            ClassificationView::Ignore => {
                lemma_run_timeout_from(target, mode, budget_ms, rest, acc);
            },
        }
    }
}

/// A recorded stream that holds no end-of-stored-events marker for the target
/// subscription within the budget completes by timeout, whatever else it
/// carries.
pub proof fn lemma_timeout_completion(
    target: Seq<char>,
    mode: Mode,
    budget_ms: u64,
    feed: Seq<TimedNotificationView>,
)
    requires
        forall|j: int| 0 <= j < feed.len() ==> !(is_terminator(#[trigger] feed[j], target)
            && feed[j].at_ms <= budget_ms),
    ensures
        spec_run(target, mode, budget_ms, feed, Seq::empty()).reason
            == Reason::CompletedByTimeout,
{
    lemma_run_timeout_from(target, mode, budget_ms, feed, Seq::empty());
}

/// A completed run together with the subscription identifiers it released:
/// one release, on every outcome path.
pub struct QueryRun {
    pub outcome: QueryOutcome,
    pub unsubscribed: Vec<String>,
}

/// Runs one query over a recorded notification stream: the outcome is exactly
/// [`spec_run`] on the stream, and the subscription is released exactly once,
/// whatever the outcome.
pub fn run(
    subscription_id: &String,
    mode: Mode,
    budget_ms: u64,
    feed: Vec<TimedNotification>,
) -> (r: QueryRun)
    ensures
        r.outcome@ == spec_run(subscription_id@, mode, budget_ms, feed.deep_view(), Seq::empty()),
        r.unsubscribed.deep_view() == seq![subscription_id@],
{
    let ghost full = feed.deep_view();
    let mut feed = feed;
    let mut coordinator = QueryCoordinator::new(subscription_id.clone(), mode);
    while feed.len() > 0 && !coordinator.is_done()
        invariant
            coordinator.inv(),
            coordinator.target_spec() == subscription_id@,
            coordinator.mode() == mode,
            ({
                let goal = spec_run(subscription_id@, mode, budget_ms, full, Seq::empty());
                match coordinator.done() {
                    None => goal == spec_run(
                        subscription_id@,
                        mode,
                        budget_ms,
                        feed.deep_view(),
                        coordinator.records(),
                    ),
                    Some(reason) => goal == (QueryOutcomeView {
                        records: coordinator.records(),
                        reason,
                    }),
                }
            }),
        decreases feed.len(),
    {
        let ghost prev = feed.deep_view();
        let ghost recs = coordinator.records();
        let t = feed.remove(0);
        proof {
            assert(prev[0] == t@);
            assert(feed.deep_view() =~= prev.drop_first());
        }
        if t.at_ms > budget_ms {
            coordinator.on_deadline();
        } else {
            coordinator.on_notification(t.notification);
        }
    }
    if !coordinator.is_done() {
        coordinator.on_stream_closed();
    }
    let outcome = coordinator.finish();
    let mut unsubscribed: Vec<String> = Vec::new();
    unsubscribed.push(subscription_id.clone());
    proof {
        assert(unsubscribed.deep_view() =~= seq![subscription_id@]);
    }
    QueryRun { outcome, unsubscribed }
}

} // verus!
