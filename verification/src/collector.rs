//! The property collector: a two-state loop (asking, done) fed by operator
//! decisions. A "yes" adds one named, typed property and asks again; a "no"
//! or a cancelled confirmation ends the collection. The terminal interaction
//! happens outside the library; this module applies the decisions.

use crate::models::Property;
use crate::properties::PropertyMap;
use crate::text::normalize;
use crate::text::spec_normalize;
use vstd::prelude::*;
use vstd::string::StrSliceExecFns;

verus! {

/// One operator decision in the collection loop.
pub enum CollectEvent {
    /// The operator confirmed and entered a raw property name and a kind.
    Add(String, Property),
    /// The operator declined to add another property.
    Decline,
    /// The operator cancelled the confirmation without choosing.
    Abort,
}

/// A collection decision with the raw name as a character sequence.
pub enum CollectEventView {
    Add(Seq<char>, Property),
    Decline,
    Abort,
}

impl View for CollectEvent {
    type V = CollectEventView;

    open spec fn view(&self) -> CollectEventView {
        match self {
            CollectEvent::Add(name, kind) => CollectEventView::Add(name@, *kind),
            CollectEvent::Decline => CollectEventView::Decline,
            CollectEvent::Abort => CollectEventView::Abort,
        }
    }
}

/// The decisions of a sequence of events.
pub open spec fn event_views(s: Seq<CollectEvent>) -> Seq<CollectEventView> {
    s.map_values(|e: CollectEvent| e@)
}

/// The mapping that collecting leaves behind: decisions are applied in order
/// until the first "no" or cancellation; each addition normalizes the raw
/// name and, when the normal form is non-empty, stores it with the chosen
/// kind, a repeated name taking the new kind.
pub open spec fn spec_collect(
    m: Map<Seq<char>, Property>,
    evs: Seq<CollectEventView>,
) -> Map<Seq<char>, Property>
    decreases evs.len(),
{
    if evs.len() == 0 {
        m
    } else {
        match evs[0] {
            CollectEventView::Add(name, kind) => {
                let k = spec_normalize(name);
                if k.len() > 0 {
                    spec_collect(m.insert(k, kind), evs.skip(1))
                } else {
                    spec_collect(m, evs.skip(1))
                }
            },
            _ => m,
        }
    }
}

/// The distinct normalized names a sequence of decisions enters before the
/// collection stops.
pub open spec fn added_names(evs: Seq<CollectEventView>) -> Set<Seq<char>>
    decreases evs.len(),
{
    if evs.len() == 0 {
        Set::empty()
    } else {
        match evs[0] {
            CollectEventView::Add(name, _) => {
                let k = spec_normalize(name);
                if k.len() > 0 {
                    added_names(evs.skip(1)).insert(k)
                } else {
                    added_names(evs.skip(1))
                }
            },
            _ => Set::empty(),
        }
    }
}

/// Applies one collection decision. An addition normalizes the raw name,
/// stores it when the normal form is non-empty and reports that collecting
/// goes on; a decline or a cancellation changes nothing and reports that
/// collecting is done.
pub fn set_properties_step(properties: &mut PropertyMap, event: &CollectEvent) -> (done: bool)
    requires
        old(properties).wf(),
    ensures
        final(properties).wf(),
        match event@ {
            CollectEventView::Add(name, kind) => {
                &&& !done
                &&& spec_normalize(name).len() > 0 ==> final(properties).as_map() == old(
                    properties,
                ).as_map().insert(spec_normalize(name), kind)
                &&& spec_normalize(name).len() == 0 ==> *final(properties) == *old(properties)
            },
            _ => done && *final(properties) == *old(properties),
        },
{
    match event {
        CollectEvent::Add(name, kind) => {
            let key = normalize(name.as_str());
            if key.as_str().unicode_len() > 0 {
                proof {
                    crate::text::lemma_normalize_idempotent(name@);
                }
                properties.insert(key, *kind);
            }
            false
        },
        CollectEvent::Decline => true,
        CollectEvent::Abort => true,
    }
}

/// Runs the collection loop over a finite sequence of decisions. The loop
/// always terminates; the resulting map is exactly [`spec_collect`] of the
/// starting map and the decisions.
pub fn set_properties(properties: &mut PropertyMap, events: &Vec<CollectEvent>)
    requires
        old(properties).wf(),
    ensures
        final(properties).wf(),
        final(properties).as_map() == spec_collect(old(properties).as_map(), event_views(events@)),
{
    let ghost m0 = old(properties).as_map();
    let ghost evs = event_views(events@);
    let n = events.len();
    let mut i: usize = 0;
    let mut done = false;
    proof {
        assert(evs.skip(0) =~= evs);
    }
    while i < n && !done
        invariant
            n == events@.len(),
            evs == event_views(events@),
            0 <= i <= n,
            properties.wf(),
            !done ==> spec_collect(m0, evs) == spec_collect(properties.as_map(), evs.skip(i as int)),
            done ==> spec_collect(m0, evs) == properties.as_map(),
        decreases n - i,
    {
        let ghost pre = properties.as_map();
        done = set_properties_step(properties, &events[i]);
        proof {
            assert(evs[i as int] == events@[i as int]@);
            assert(evs.skip(i as int)[0] == evs[i as int]);
            assert(evs.skip(i as int).skip(1) =~= evs.skip(i as int + 1));
            assert(spec_collect(pre, evs.skip(i as int)) == spec_collect(
                properties.as_map(),
                evs.skip(i as int + 1),
            ) || done);
        }
        i += 1;
    }
    proof {
        if !done {
            assert(evs.skip(n as int) =~= Seq::<CollectEventView>::empty());
        }
    }
}

proof fn lemma_added_names_finite(evs: Seq<CollectEventView>)
    ensures
        added_names(evs).finite(),
    decreases evs.len(),
{
    if evs.len() > 0 {
        lemma_added_names_finite(evs.skip(1));
    }
}

/// Law: collecting adds exactly the distinct normalized names entered before
/// the stop — the resulting mapping's domain is the starting domain united
/// with those names.
pub proof fn lemma_collector_names(m: Map<Seq<char>, Property>, evs: Seq<CollectEventView>)
    ensures
        spec_collect(m, evs).dom() == m.dom().union(added_names(evs)),
    decreases evs.len(),
{
    if evs.len() == 0 {
        assert(spec_collect(m, evs).dom() =~= m.dom().union(added_names(evs)));
    } else {
        match evs[0] {
            CollectEventView::Add(name, kind) => {
                let k = spec_normalize(name);
                if k.len() > 0 {
                    lemma_collector_names(m.insert(k, kind), evs.skip(1));
                } else {
                    lemma_collector_names(m, evs.skip(1));
                }
                assert(spec_collect(m, evs).dom() =~= m.dom().union(added_names(evs)));
            },
            _ => {
                assert(spec_collect(m, evs).dom() =~= m.dom().union(added_names(evs)));
            },
        }
    }
}

/// Law: for a collection that starts empty, the resulting map holds exactly
/// the distinct names entered before the stop — duplicates overwrite rather
/// than append, so the size is the number of distinct names.
pub proof fn lemma_collector_size(evs: Seq<CollectEventView>)
    ensures
        spec_collect(Map::empty(), evs).dom() == added_names(evs),
        added_names(evs).finite(),
        spec_collect(Map::empty(), evs).dom().len() == added_names(evs).len(),
{
    lemma_added_names_finite(evs);
    lemma_collector_names(Map::empty(), evs);
    assert(Map::<Seq<char>, Property>::empty().dom().union(added_names(evs)) =~= added_names(
        evs,
    ));
}

} // verus!
