//! Building the source catalog from the daemon's enumeration messages.
use vstd::prelude::*;
use crate::error::MonitorError;
use crate::source::{
    SourceDatum,
    SourceView,
    Sources,
    entries_map,
    lemma_entries_map,
    unique_indices,
};

verus! {

/// One message of a source enumeration, in the order the daemon sent it.
#[derive(Debug, Clone)]
pub enum SrcListState {
    /// A source and its index.
    Item(u32, SourceDatum),
    /// The enumeration is complete.
    Done,
    /// The enumeration failed, with the reason.
    Error(String),
}

/// The name given to a source that the daemon lists without one.
pub const UNKNOWN_SOURCE_NAME: &'static str = "unknown";

/// The item message for a listed source; a missing name becomes
/// [`UNKNOWN_SOURCE_NAME`].
pub fn list_item(index: u32, name: Option<String>, mute: bool) -> (r: SrcListState)
    ensures
        r matches SrcListState::Item(i, d) && i == index && d.mute == mute && match name {
            Some(n) => d.name@ == n@,
            None => d.name@ == UNKNOWN_SOURCE_NAME@,
        },
{
    let name = match name {
        Some(n) => n,
        None => UNKNOWN_SOURCE_NAME.to_owned(),
    };
    SrcListState::Item(index, SourceDatum::new(name, mute))
}

/// Where an enumeration stands after some of its messages.
pub ghost enum Listing {
    /// No final message yet; the catalog gathered so far.
    Pending(Map<u32, SourceView>),
    /// The enumeration ended; the complete catalog.
    Complete(Map<u32, SourceView>),
    /// The enumeration failed with this reason; what was gathered is dropped.
    Failed(Seq<char>),
}

/// The outcome of the messages `msgs`, received after `acc` was gathered.
/// Messages after the first final one are never read.
pub open spec fn listing_from(acc: Map<u32, SourceView>, msgs: Seq<SrcListState>) -> Listing
    decreases msgs.len(),
{
    if msgs.len() == 0 {
        Listing::Pending(acc)
    } else {
        match msgs[0] {
            SrcListState::Item(i, d) => listing_from(acc.insert(i, d@), msgs.drop_first()),
            SrcListState::Done => Listing::Complete(acc),
            SrcListState::Error(e) => Listing::Failed(e@),
        }
    }
}

/// The outcome of a whole enumeration.
pub open spec fn listing(msgs: Seq<SrcListState>) -> Listing {
    listing_from(Map::empty(), msgs)
}

/// The messages of a complete enumeration that lists `items` in order.
pub open spec fn enumeration(items: Seq<(u32, SourceDatum)>) -> Seq<SrcListState> {
    items.map_values(|e: (u32, SourceDatum)| SrcListState::Item(e.0, e.1)).push(
        SrcListState::Done,
    )
}

/// `acc` with the items of `items` recorded in order.
pub open spec fn record_items(acc: Map<u32, SourceView>, items: Seq<(u32, SourceDatum)>) -> Map<
    u32,
    SourceView,
>
    decreases items.len(),
{
    if items.len() == 0 {
        acc
    } else {
        record_items(acc.insert(items[0].0, items[0].1@), items.drop_first())
    }
}

proof fn lemma_record_push(
    acc: Map<u32, SourceView>,
    items: Seq<(u32, SourceDatum)>,
    e: (u32, SourceDatum),
)
    ensures
        record_items(acc, items.push(e)) == record_items(acc, items).insert(e.0, e.1@),
    decreases items.len(),
{
    if items.len() > 0 {
        assert(items.push(e).drop_first() =~= items.drop_first().push(e));
        assert(items.push(e)[0] == items[0]);
        lemma_record_push(acc.insert(items[0].0, items[0].1@), items.drop_first(), e);
    } else {
        let one = items.push(e);
        assert(one.drop_first() =~= Seq::<(u32, SourceDatum)>::empty());
        assert(one[0] == e);
        assert(record_items(acc.insert(e.0, e.1@), one.drop_first()) == acc.insert(e.0, e.1@));
    }
}

proof fn lemma_record_is_entries_map(items: Seq<(u32, SourceDatum)>)
    ensures
        record_items(Map::empty(), items) == entries_map(items),
    decreases items.len(),
{
    if items.len() > 0 {
        let t = items.drop_last();
        lemma_record_is_entries_map(t);
        assert(t.push(items.last()) =~= items);
        lemma_record_push(Map::empty(), t, items.last());
    }
}

proof fn lemma_listing_of_items(
    acc: Map<u32, SourceView>,
    items: Seq<(u32, SourceDatum)>,
    rest: Seq<SrcListState>,
)
    ensures
        listing_from(
            acc,
            items.map_values(|e: (u32, SourceDatum)| SrcListState::Item(e.0, e.1)) + rest,
        ) == listing_from(record_items(acc, items), rest),
    decreases items.len(),
{
    let f = |e: (u32, SourceDatum)| SrcListState::Item(e.0, e.1);
    let msgs = items.map_values(f) + rest;
    if items.len() > 0 {
        assert(msgs[0] == SrcListState::Item(items[0].0, items[0].1));
        assert(msgs.drop_first() =~= items.drop_first().map_values(f) + rest);
        lemma_listing_of_items(acc.insert(items[0].0, items[0].1@), items.drop_first(), rest);
    } else {
        assert(msgs =~= rest);
    }
}

/// The catalog of a complete enumeration is the map of the items it lists.
pub proof fn lemma_enumeration_catalog(items: Seq<(u32, SourceDatum)>)
    ensures
        listing(enumeration(items)) == Listing::Complete(entries_map(items)),
{
    let f = |e: (u32, SourceDatum)| SrcListState::Item(e.0, e.1);
    let done = seq![SrcListState::Done];
    assert(enumeration(items) =~= items.map_values(f) + done);
    lemma_listing_of_items(Map::empty(), items, done);
    lemma_record_is_entries_map(items);
    assert(done.drop_first().len() == 0);
}

/// Listing the sources of an unchanged daemon twice gives equal catalogs: two
/// complete enumerations that list the same sources, each index once and in
/// any order, end with the same catalog.
pub proof fn lemma_listing_idempotent(a: Seq<(u32, SourceDatum)>, b: Seq<(u32, SourceDatum)>)
    requires
        unique_indices(a),
        unique_indices(b),
        forall|p: int|
            0 <= p < a.len() ==> exists|q: int|
                0 <= q < b.len() && #[trigger] a[p].0 == #[trigger] b[q].0 && a[p].1@ == b[q].1@,
        forall|q: int|
            0 <= q < b.len() ==> exists|p: int|
                0 <= p < a.len() && #[trigger] a[p].0 == #[trigger] b[q].0 && a[p].1@ == b[q].1@,
    ensures
        listing(enumeration(a)) == listing(enumeration(b)),
        listing(enumeration(a)) is Complete,
{
    lemma_enumeration_catalog(a);
    lemma_enumeration_catalog(b);
    lemma_entries_map(a);
    lemma_entries_map(b);
    let ma = entries_map(a);
    let mb = entries_map(b);
    assert forall|k: u32| #[trigger] ma.contains_key(k) implies mb.contains_key(k) && ma[k]
        == mb[k] by {
        let p = choose|p: int| 0 <= p < a.len() && a[p].0 == k;
        let q = choose|q: int| 0 <= q < b.len() && a[p].0 == b[q].0 && a[p].1@ == b[q].1@;
        assert(ma[a[p].0] == a[p].1@);
        assert(mb[b[q].0] == b[q].1@);
    }
    assert forall|k: u32| #[trigger] mb.contains_key(k) implies ma.contains_key(k) by {
        let q = choose|q: int| 0 <= q < b.len() && b[q].0 == k;
        let p = choose|p: int| 0 <= p < a.len() && a[p].0 == b[q].0 && a[p].1@ == b[q].1@;
    }
    assert(ma =~= mb);
}

/// The catalog gathered so far by an enumeration that has not ended.
pub struct SourceCollector {
    pub sources: Sources,
}

/// What follows one message of an enumeration.
pub enum ListStep {
    /// More messages are needed.
    Pending(SourceCollector),
    /// The enumeration ended: its catalog, or the error that ended it.
    Finished(Result<Sources, MonitorError>),
}

impl SourceCollector {
    /// A collector that has received nothing yet.
    pub fn new() -> (r: Self)
        ensures
            r.sources.wf(),
            r.sources@ == Map::<u32, SourceView>::empty(),
    {
        SourceCollector { sources: Sources::new() }
    }

    /// Takes the next message: an item is recorded under its index, replacing
    /// an earlier one; `Done` hands out the catalog; an error drops it.
    pub fn accept(self, msg: SrcListState) -> (r: ListStep)
        requires
            self.sources.wf(),
        ensures
            match msg {
                SrcListState::Item(i, d) => r matches ListStep::Pending(c) && c.sources.wf()
                    && c.sources@ == self.sources@.insert(i, d@),
                SrcListState::Done => r matches ListStep::Finished(Ok(s)) && s.wf() && s@
                    == self.sources@,
                SrcListState::Error(e) => r matches ListStep::Finished(Err(MonitorError::Query(
                    q,
                ))) && q@ == e@,
            },
    {
        let mut sources = self.sources;
        match msg {
            SrcListState::Item(i, d) => {
                sources.insert(i, d);
                ListStep::Pending(SourceCollector { sources })
            },
            SrcListState::Done => ListStep::Finished(Ok(sources)),
            SrcListState::Error(e) => ListStep::Finished(Err(MonitorError::Query(e))),
        }
    }
}

/// The catalog that a recorded enumeration describes: the items up to the
/// first final message, when that message is `Done`. An error message gives
/// that error and no partial catalog; messages that stop before any final one
/// mean that the reply channel closed.
pub fn collect_sources(msgs: Vec<SrcListState>) -> (r: Result<Sources, MonitorError>)
    ensures
        match listing(msgs@) {
            Listing::Complete(m) => r matches Ok(s) && s.wf() && s@ == m,
            Listing::Failed(e) => r matches Err(MonitorError::Query(q)) && q@ == e,
            Listing::Pending(_) => r matches Err(MonitorError::ChannelDisconnected),
        },
{
    let ghost whole = msgs@;
    let mut queue = msgs;
    let mut collector = SourceCollector::new();
    while queue.len() > 0
        invariant
            collector.sources.wf(),
            whole == msgs@,
            listing(whole) == listing_from(collector.sources@, queue@),
        decreases queue.len(),
    {
        let ghost cur = queue@;
        let ghost acc = collector.sources@;
        let msg = queue.remove(0);
        assert(queue@ =~= cur.drop_first());
        assert(msg == cur[0]);
        match collector.accept(msg) {
            ListStep::Pending(c) => {
                collector = c;
            },
            ListStep::Finished(outcome) => {
                proof {
                    match cur[0] {
                        SrcListState::Item(i, d) => {},
                        SrcListState::Done => {
                            assert(listing_from(acc, cur) == Listing::Complete(acc));
                        },
                        SrcListState::Error(e) => {
                            assert(listing_from(acc, cur) == Listing::Failed(e@));
                        },
                    }
                }
                return outcome;
            },
        }
    }
    Err(MonitorError::ChannelDisconnected)
}

} // verus!
