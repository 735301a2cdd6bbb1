//! Renders a relay-attributed query outcome as display lines, one per
//! (event, relay) arrival, in arrival order: seeing the same article from two
//! relays is meaningful operator information, so nothing is deduplicated here.

use vstd::prelude::*;

use crate::matcher::EventRecord;
use crate::matcher::EventRecordView;

verus! {

/// The tags of one record laid out one after the other, each followed by a
/// single space.
pub open spec fn spec_joined_tags(tags: Seq<Seq<char>>) -> Seq<char>
    decreases tags.len(),
{
    if tags.len() == 0 {
        Seq::empty()
    } else {
        tags[0] + " "@ + spec_joined_tags(tags.drop_first())
    }
}

/// The display line of one record: its tags and the relay it arrived from.
pub open spec fn spec_line(rec: EventRecordView) -> Seq<char> {
    "Article tags: "@ + spec_joined_tags(rec.tags) + "on relay: "@ + rec.relay
}

/// Joining one more tag appends it, and its trailing space, at the end.
proof fn lemma_joined_tags_snoc(tags: Seq<Seq<char>>, tag: Seq<char>)
    ensures
        spec_joined_tags(tags.push(tag)) == spec_joined_tags(tags) + tag + " "@,
    decreases tags.len(),
{
    let whole = tags.push(tag);
    if tags.len() == 0 {
        assert(whole.drop_first() =~= Seq::<Seq<char>>::empty());
        assert(spec_joined_tags(Seq::<Seq<char>>::empty()) == Seq::<char>::empty());
        assert(spec_joined_tags(whole) =~= tag + " "@);
        assert(spec_joined_tags(tags) + tag + " "@ =~= tag + " "@);
    } else {
        assert(whole.drop_first() =~= tags.drop_first().push(tag));
        lemma_joined_tags_snoc(tags.drop_first(), tag);
        assert(spec_joined_tags(whole) =~= spec_joined_tags(tags) + tag + " "@);
    }
}

/// Renders one record as its display line.
fn render_line(rec: &EventRecord) -> (line: String)
    ensures
        line@ == spec_line(rec@),
{
    let mut line = "Article tags: ".to_owned();
    let n = rec.tags.len();
    let mut i: usize = 0;
    while i < n
        invariant
            n == rec.tags.len(),
            i <= n,
            line@ == "Article tags: "@ + spec_joined_tags(rec.tags.deep_view().take(i as int)),
        decreases n - i,
    {
        line.append(rec.tags[i].as_str());
        line.append(" ");
        proof {
            let tv = rec.tags.deep_view();
            assert(tv.take(i as int + 1) =~= tv.take(i as int).push(tv[i as int]));
            lemma_joined_tags_snoc(tv.take(i as int), tv[i as int]);
            assert(line@ =~= "Article tags: "@ + spec_joined_tags(tv.take(i as int + 1)));
        }
        i += 1;
    }
    line.append("on relay: ");
    line.append(rec.relay.as_str());
    proof {
        assert(rec.tags.deep_view().take(rec.tags.len() as int) =~= rec.tags.deep_view());
        assert(line@ =~= spec_line(rec@));
    }
    line
}

/// Consumes a relay-attributed query outcome to render per-relay listing
/// output.
pub struct ListingPresenter;

impl ListingPresenter {
    /// One display line per matched (event, relay) pair, in arrival order,
    /// each showing the event's tags and its originating relay; duplicates are
    /// kept.
    pub fn render(matched: &Vec<EventRecord>) -> (lines: Vec<String>)
        ensures
            lines.deep_view() == matched.deep_view().map_values(
                |r: EventRecordView| spec_line(r),
            ),
    {
        let mut lines: Vec<String> = Vec::new();
        let n = matched.len();
        let mut i: usize = 0;
        while i < n
            invariant
                n == matched.len(),
                i <= n,
                lines.deep_view() == matched.deep_view().take(i as int).map_values(
                    |r: EventRecordView| spec_line(r),
                ),
            decreases n - i,
        {
            let ghost prev = lines.deep_view();
            lines.push(render_line(&matched[i]));
            proof {
                let m = matched.deep_view();
                assert(lines.deep_view() =~= prev.push(spec_line(m[i as int])));
                assert(m.take(i as int + 1) =~= m.take(i as int).push(m[i as int]));
                assert(m.take(i as int + 1).map_values(|r: EventRecordView| spec_line(r))
                    =~= m.take(i as int).map_values(|r: EventRecordView| spec_line(r)).push(
                    spec_line(m[i as int]),
                ));
            }
            i += 1;
        }
        proof {
            assert(matched.deep_view().take(n as int) =~= matched.deep_view());
        }
        lines
    }
}

} // verus!
