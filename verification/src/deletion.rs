//! Builds the deletion request for an article out of a query's outcome.

use vstd::prelude::*;

use crate::matcher::EventRecord;
use crate::matcher::EventRecordView;
use crate::tags::Coordinate;
use crate::tags::CoordinateView;
use crate::tags::NoteTag;
use crate::tags::NoteTagView;

verus! {

/// Why no deletion request could be built.
#[derive(Clone, Copy, PartialEq, Eq, Structural, Debug)]
pub enum BuildError {
    /// The query matched nothing: there is nothing to delete, and the caller
    /// must surface that, not silently succeed.
    NoMatches,
}

/// A request to delete an article: a reason, and the tags that let relays
/// resolve the deletion — the article's coordinate, a kind marker, and one
/// reference per matched physical event revision.
#[derive(Debug, PartialEq)]
pub struct DeletionRequest {
    pub reason: String,
    pub tags: Vec<NoteTag>,
}

/// Mathematical value of a [`DeletionRequest`].
pub struct DeletionRequestView {
    pub reason: Seq<char>,
    pub tags: Seq<NoteTagView>,
}

impl View for DeletionRequest {
    type V = DeletionRequestView;

    open spec fn view(&self) -> DeletionRequestView {
        DeletionRequestView { reason: self.reason@, tags: self.tags.deep_view() }
    }
}

/// The tag list of a deletion request: the article's coordinate, the kind
/// marker taken from that coordinate, and one event reference per matched
/// record, in the order the records were supplied.
pub open spec fn deletion_tags(
    coordinate: CoordinateView,
    matched: Seq<EventRecordView>,
) -> Seq<NoteTagView> {
    seq![NoteTagView::Coordinate(coordinate), NoteTagView::Kind(coordinate.kind)]
        + matched.map_values(|r: EventRecordView| NoteTagView::EventRef(r.id))
}

/// Consumes a query's outcome to construct the deletion request that
/// references all matched events.
pub struct DeletionRequestBuilder;

impl DeletionRequestBuilder {
    /// Builds the deletion request for the article at `coordinate`, given the
    /// matched records: it fails — with nothing else to observe — exactly when
    /// nothing matched, and otherwise carries [`deletion_tags`] of the
    /// coordinate and the records, with a fixed human-readable reason.
    pub fn build(coordinate: Coordinate, matched: &Vec<EventRecord>) -> (r: Result<
        DeletionRequest,
        BuildError,
    >)
        ensures
            r is Err <==> matched@.len() == 0,
            r matches Err(e) ==> e == BuildError::NoMatches,
            r matches Ok(req) ==> {
                &&& req@.tags == deletion_tags(coordinate@, matched.deep_view())
                &&& req@.reason == "Deleted by user request"@
            },
    {
        if matched.len() == 0 {
            return Err(BuildError::NoMatches);
        }
        let ghost cv = coordinate@;
        let kind = coordinate.kind;
        let mut tags: Vec<NoteTag> = Vec::new();
        tags.push(NoteTag::Coordinate(coordinate));
        tags.push(NoteTag::Kind(kind));
        let n = matched.len();
        let mut i: usize = 0;
        while i < n
            invariant
                n == matched.len(),
                i <= n,
                tags.deep_view() == deletion_tags(cv, matched.deep_view().take(i as int)),
            decreases n - i,
        {
            let ghost prev = tags.deep_view();
            tags.push(NoteTag::EventRef(matched[i].id.clone()));
            proof {
                let m = matched.deep_view();
                assert(tags.deep_view() =~= prev.push(NoteTagView::EventRef(m[i as int].id)));
                assert(m.take(i as int + 1) =~= m.take(i as int).push(m[i as int]));
                assert(m.take(i as int + 1).map_values(
                    |r: EventRecordView| NoteTagView::EventRef(r.id),
                ) =~= m.take(i as int).map_values(
                    |r: EventRecordView| NoteTagView::EventRef(r.id),
                ).push(NoteTagView::EventRef(m[i as int].id)));
                assert(tags.deep_view() =~= deletion_tags(cv, m.take(i as int + 1)));
            }
            i += 1;
        }
        let reason = "Deleted by user request".to_owned();
        let req = DeletionRequest { reason, tags };
        proof {
            assert(matched.deep_view().take(n as int) =~= matched.deep_view());
        }
        Ok(req)
    }
}

} // verus!
