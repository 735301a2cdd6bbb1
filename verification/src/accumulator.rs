//! The collector behind a query: either deduplicating by event identifier, or
//! an ordered pass-through that keeps one entry per (event, relay) arrival.

use vstd::prelude::*;

use crate::matcher::EventRecord;
use crate::matcher::EventRecordView;

verus! {

/// How a query accumulates its matches.
#[derive(Clone, Copy, PartialEq, Eq, Structural, Debug)]
pub enum Mode {
    /// Keep one record per event identifier, however many relays report it.
    Deduplicated,
    /// Keep every arrival in order, with its relay attribution.
    RelayAttributed,
}

/// Whether some record in `s` already carries the identifier `id`.
pub open spec fn has_id(s: Seq<EventRecordView>, id: Seq<char>) -> bool {
    exists|i: int| 0 <= i < s.len() && s[i].id == id
}

/// What one insertion does to the collected records: in deduplicated mode a
/// record whose identifier is already present is dropped; otherwise — and
/// always in relay-attributed mode — the record is appended.
pub open spec fn spec_insert(
    mode: Mode,
    s: Seq<EventRecordView>,
    rec: EventRecordView,
) -> Seq<EventRecordView> {
    if mode is Deduplicated && has_id(s, rec.id) {
        s
    } else {
        s.push(rec)
    }
}

/// The records collected after inserting each element of `recs`, in order,
/// into `s`.
pub open spec fn spec_insert_all(
    mode: Mode,
    s: Seq<EventRecordView>,
    recs: Seq<EventRecordView>,
) -> Seq<EventRecordView>
    decreases recs.len(),
{
    if recs.len() == 0 {
        s
    } else {
        spec_insert_all(mode, spec_insert(mode, s, recs[0]), recs.drop_first())
    }
}

/// A deduplicated collection never holds the same identifier twice.
pub open spec fn ids_distinct(s: Seq<EventRecordView>) -> bool {
    forall|i: int, j: int| 0 <= i < j < s.len() ==> s[i].id != s[j].id
}

/// The deduplicating or relay-attributed collector of one query.
pub struct ResultAccumulator {
    mode: Mode,
    records: Vec<EventRecord>,
}

impl View for ResultAccumulator {
    type V = Seq<EventRecordView>;

    closed spec fn view(&self) -> Seq<EventRecordView> {
        self.records.deep_view()
    }
}

impl ResultAccumulator {
    /// The mode this accumulator was created in.
    pub closed spec fn mode(&self) -> Mode {
        self.mode
    }

    /// In deduplicated mode, no identifier is ever stored twice.
    pub open spec fn well_formed(&self) -> bool {
        self.mode() is Deduplicated ==> ids_distinct(self@)
    }

    /// An empty collector in the requested mode.
    pub fn new(mode: Mode) -> (acc: ResultAccumulator)
        ensures
            acc.mode() == mode,
            acc@ == Seq::<EventRecordView>::empty(),
            acc.well_formed(),
    {
        let acc = ResultAccumulator { mode, records: Vec::new() };
        proof {
            assert(acc@ =~= Seq::<EventRecordView>::empty());
        }
        acc
    }

    /// Inserts one record: appended, unless deduplicated mode already holds its
    /// identifier, in which case the collection is unchanged.
    pub fn insert(&mut self, rec: EventRecord)
        requires
            old(self).well_formed(),
        ensures
            final(self)@ == spec_insert(old(self).mode(), old(self)@, rec@),
            final(self).mode() == old(self).mode(),
            final(self).well_formed(),
    {
        let is_dedup = match self.mode {
            Mode::Deduplicated => true,
            Mode::RelayAttributed => false,
        };
        if is_dedup {
            let n = self.records.len();
            let mut i: usize = 0;
            while i < n
                invariant
                    *self == *old(self),
                    self.mode() is Deduplicated,
                    self.well_formed(),
                    n == self.records.len(),
                    i <= n,
                    forall|k: int| 0 <= k < i ==> self@[k].id != rec@.id,
                decreases n - i,
            {
                if self.records[i].id == rec.id {
                    proof {
                        assert(self@[i as int].id == rec@.id);
                        assert(has_id(self@, rec@.id));
                    }
                    return ;
                }
                i += 1;
            }
            proof {
                assert(!has_id(self@, rec@.id));
            }
        }
        let ghost prior = self@;
        self.records.push(rec);
        proof {
            assert(self@ =~= prior.push(rec@));
        }
    }

    /// Hands the collected records out, in the order they were kept.
    pub fn drain(self) -> (out: Vec<EventRecord>)
        ensures
            out.deep_view() == self@,
    {
        self.records
    }
}

/// Deduplicated mode collapses repetition: however many times the same
/// identifier is inserted — one record per reporting relay included — a
/// collection that already went from empty through one such insertion holds
/// exactly one record for it, the first arrival.
pub proof fn lemma_dedup_absorbs_same_id(
    s: Seq<EventRecordView>,
    recs: Seq<EventRecordView>,
    id: Seq<char>,
)
    requires
        has_id(s, id),
        forall|i: int| 0 <= i < recs.len() ==> recs[i].id == id,
    ensures
        spec_insert_all(Mode::Deduplicated, s, recs) == s,
    decreases recs.len(),
{
    if recs.len() > 0 {
        assert(recs[0].id == id);
        assert(spec_insert(Mode::Deduplicated, s, recs[0]) == s);
        lemma_dedup_absorbs_same_id(s, recs.drop_first(), id);
    }
}

/// Inserting the same event identifier any number N >= 1 of times (from N
/// different relays or not) into an empty deduplicated collection yields
/// exactly one record: the first one inserted.
pub proof fn lemma_dedup_single_record(recs: Seq<EventRecordView>, id: Seq<char>)
    requires
        recs.len() >= 1,
        forall|i: int| 0 <= i < recs.len() ==> recs[i].id == id,
    ensures
        spec_insert_all(Mode::Deduplicated, Seq::empty(), recs) =~= seq![recs[0]],
{
    let first = spec_insert(Mode::Deduplicated, Seq::empty(), recs[0]);
    assert(first =~= seq![recs[0]]);
    assert(has_id(first, id)) by {
        assert(first[0].id == id);
    }
    lemma_dedup_absorbs_same_id(first, recs.drop_first(), id);
}

/// Relay-attributed mode keeps duplicates: inserting the same event identifier
/// from two relays (distinct or not) appends both records, in arrival order.
pub proof fn lemma_relay_attributed_keeps_both(
    s: Seq<EventRecordView>,
    r1: EventRecordView,
    r2: EventRecordView,
)
    requires
        r1.id == r2.id,
    ensures
        ({
            let out = spec_insert_all(Mode::RelayAttributed, s, seq![r1, r2]);
            &&& out.len() == s.len() + 2
            &&& out[s.len() as int] == r1
            &&& out[s.len() as int + 1] == r2
        }),
{
    let two = seq![r1, r2];
    let tail = two.drop_first();
    assert(tail =~= seq![r2]);
    let s1 = spec_insert(Mode::RelayAttributed, s, r1);
    assert(s1 == s.push(r1));
    assert(spec_insert_all(Mode::RelayAttributed, s, two)
        == spec_insert_all(Mode::RelayAttributed, s1, tail));
    let tail2 = seq![r2].drop_first();
    assert(tail2 =~= Seq::<EventRecordView>::empty());
    let s2 = spec_insert(Mode::RelayAttributed, s1, r2);
    assert(s2 == s1.push(r2));
    assert(spec_insert_all(Mode::RelayAttributed, s1, seq![r2])
        == spec_insert_all(Mode::RelayAttributed, s2, tail2));
    assert(spec_insert_all(Mode::RelayAttributed, s2, tail2) == s2);
}

} // verus!
