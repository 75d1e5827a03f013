//! State fan-out: flattening event tables into per-UUID updates and folding
//! the first tables into a state snapshot.
//!
//! Every event table flattens into `(UUID, state)` pairs in record order; a
//! snapshot is the mapping each UUID has after all pairs are applied in
//! order, the last update winning.

use vstd::prelude::*;
use vstd::slice::slice_to_vec;
use crate::events::{EventTable, EventTableV, DaytimerEntry, WeatherEntry};

verus! {

/// The state a single UUID is in after an update; wide numeric fields are
/// f64 bit patterns, as in the records.
#[derive(Debug, Clone)]
pub enum StateValue {
    Value(u64),
    Text(String, String),
    Daytimer(Vec<DaytimerEntry>, u64),
    Weather(Vec<WeatherEntry>, u32),
}

/// Mathematical image of a `StateValue`.
pub ghost enum StateValueV {
    Value(u64),
    Text(Seq<char>, Seq<char>),
    Daytimer(Seq<DaytimerEntry>, u64),
    Weather(Seq<WeatherEntry>, u32),
}

impl View for StateValue {
    type V = StateValueV;

    open spec fn view(&self) -> StateValueV {
        match self {
            StateValue::Value(v) => StateValueV::Value(*v),
            StateValue::Text(t, icon) => StateValueV::Text(t@, icon@),
            StateValue::Daytimer(es, d) => StateValueV::Daytimer(es@, *d),
            StateValue::Weather(es, lu) => StateValueV::Weather(es@, *lu),
        }
    }
}

/// View of a pair vector.
pub open spec fn pairs_view(s: Seq<(String, StateValue)>) -> Seq<(Seq<char>, StateValueV)> {
    s.map_values(|p: (String, StateValue)| (p.0@, p.1@))
}

/// The `(UUID, state)` pairs of one event table, in record order.
pub open spec fn spec_flatten(t: EventTableV) -> Seq<(Seq<char>, StateValueV)> {
    match t {
        EventTableV::ValueEvents(evs) =>
            evs.map_values(|e: crate::events::ValueEventV| (e.uuid, StateValueV::Value(e.value))),
        EventTableV::TextEvents(evs) =>
            evs.map_values(|e: crate::events::TextEventV| (e.uuid, StateValueV::Text(e.text, e.icon))),
        EventTableV::DaytimerEvents(evs) =>
            evs.map_values(|e: crate::events::DaytimerEventV| (e.uuid, StateValueV::Daytimer(e.entries, e.default_value))),
        EventTableV::WeatherEvents(evs) =>
            evs.map_values(|e: crate::events::WeatherEventV| (e.uuid, StateValueV::Weather(e.entries, e.last_update))),
    }
}

/// Flattens one event table into `(UUID, state)` pairs in record order.
pub fn event_table_pairs(t: &EventTable) -> (r: Vec<(String, StateValue)>)
    ensures
        pairs_view(r@) == spec_flatten(t@),
{
    let mut out: Vec<(String, StateValue)> = Vec::new();
    match t {
        EventTable::ValueEvents(evs) => {
            let mut i: usize = 0;
            while i < evs.len()
                invariant
                    i <= evs@.len(),
                    out@.len() == i,
                    forall|j: int| 0 <= j < i ==> (#[trigger] out@[j]).0@ == evs@[j]@.uuid
                        && out@[j].1@ == StateValueV::Value(evs@[j]@.value),
                decreases evs@.len() - i,
            {
                let e = &evs[i];
                out.push((e.uuid.clone(), StateValue::Value(e.value)));
                i = i + 1;
            }
            proof {
                assert(pairs_view(out@) =~~= spec_flatten(t@));
            }
        },
        EventTable::TextEvents(evs) => {
            let mut i: usize = 0;
            while i < evs.len()
                invariant
                    i <= evs@.len(),
                    out@.len() == i,
                    forall|j: int| 0 <= j < i ==> (#[trigger] out@[j]).0@ == evs@[j]@.uuid
                        && out@[j].1@ == StateValueV::Text(evs@[j]@.text, evs@[j]@.icon),
                decreases evs@.len() - i,
            {
                let e = &evs[i];
                out.push((e.uuid.clone(), StateValue::Text(e.text.clone(), e.icon.clone())));
                i = i + 1;
            }
            proof {
                assert(pairs_view(out@) =~~= spec_flatten(t@));
            }
        },
        EventTable::DaytimerEvents(evs) => {
            let mut i: usize = 0;
            while i < evs.len()
                invariant
                    i <= evs@.len(),
                    out@.len() == i,
                    forall|j: int| 0 <= j < i ==> (#[trigger] out@[j]).0@ == evs@[j]@.uuid
                        && out@[j].1@ == StateValueV::Daytimer(evs@[j]@.entries, evs@[j]@.default_value),
                decreases evs@.len() - i,
            {
                let e = &evs[i];
                out.push((e.uuid.clone(), StateValue::Daytimer(slice_to_vec(e.entries.as_slice()), e.default_value)));
                i = i + 1;
            }
            proof {
                assert(pairs_view(out@) =~~= spec_flatten(t@));
            }
        },
        EventTable::WeatherEvents(evs) => {
            let mut i: usize = 0;
            while i < evs.len()
                invariant
                    i <= evs@.len(),
                    out@.len() == i,
                    forall|j: int| 0 <= j < i ==> (#[trigger] out@[j]).0@ == evs@[j]@.uuid
                        && out@[j].1@ == StateValueV::Weather(evs@[j]@.entries, evs@[j]@.last_update),
                decreases evs@.len() - i,
            {
                let e = &evs[i];
                out.push((e.uuid.clone(), StateValue::Weather(slice_to_vec(e.entries.as_slice()), e.last_update)));
                i = i + 1;
            }
            proof {
                assert(pairs_view(out@) =~~= spec_flatten(t@));
            }
        },
    }
    out
}

/// The pairs of a run of event tables, tables in arrival order, records in
/// wire order inside each.
pub open spec fn spec_flatten_all(ts: Seq<EventTableV>) -> Seq<(Seq<char>, StateValueV)>
    decreases ts.len(),
{
    if ts.len() == 0 {
        Seq::empty()
    } else {
        spec_flatten(ts[0]) + spec_flatten_all(ts.drop_first())
    }
}

/// Flattens a run of event tables, keeping arrival order.
pub fn flatten_tables(ts: &Vec<EventTable>) -> (r: Vec<(String, StateValue)>)
    ensures
        pairs_view(r@) == spec_flatten_all(ts@.map_values(|t: EventTable| t@)),
{
    let mut out: Vec<(String, StateValue)> = Vec::new();
    let mut i: usize = 0;
    while i < ts.len()
        invariant
            i <= ts@.len(),
            pairs_view(out@) =~~= spec_flatten_all(ts@.subrange(0, i as int).map_values(|t: EventTable| t@)),
        decreases ts@.len() - i,
    {
        let mut pairs = event_table_pairs(&ts[i]);
        let ghost old_out = out@;
        let ghost pairs_snap = pairs@;
        out.append(&mut pairs);
        i = i + 1;
        proof {
            assert(pairs_view(out@) =~~= pairs_view(old_out) + pairs_view(pairs_snap));
            lemma_flatten_all_snoc(ts@.subrange(0, i as int).map_values(|t: EventTable| t@));
            assert(ts@.subrange(0, i as int).map_values(|t: EventTable| t@).drop_last()
                =~= ts@.subrange(0, i - 1).map_values(|t: EventTable| t@));
            assert(pairs_view(out@) =~~= spec_flatten_all(ts@.subrange(0, i as int).map_values(|t: EventTable| t@)));
        }
    }
    proof {
        assert(ts@.subrange(0, ts@.len() as int) =~= ts@);
    }
    out
}

/// Splitting the last table off a run splits its pairs off the back.
proof fn lemma_flatten_all_snoc(ts: Seq<EventTableV>)
    requires
        ts.len() > 0,
    ensures
        spec_flatten_all(ts) == spec_flatten_all(ts.drop_last()) + spec_flatten(ts.last()),
    decreases ts.len(),
{
    if ts.len() == 1 {
        assert(ts.drop_last() =~= Seq::<EventTableV>::empty());
        assert(spec_flatten_all(ts.drop_last()) + spec_flatten(ts.last()) =~= spec_flatten(ts[0]));
        assert(spec_flatten_all(ts) =~= spec_flatten(ts[0]) + spec_flatten_all(ts.drop_first()));
        assert(spec_flatten_all(ts.drop_first()) =~= Seq::<(Seq<char>, StateValueV)>::empty());
        assert(spec_flatten_all(ts) =~= spec_flatten(ts[0]));
    } else {
        lemma_flatten_all_snoc(ts.drop_first());
        assert(ts.drop_first().drop_last() =~= ts.drop_last().drop_first());
        assert(ts.drop_first().last() == ts.last());
        assert(ts.drop_last()[0] == ts[0]);
        assert(spec_flatten_all(ts) =~= spec_flatten(ts[0]) + spec_flatten_all(ts.drop_first()));
        assert(spec_flatten_all(ts.drop_last()) =~= spec_flatten(ts[0]) + spec_flatten_all(ts.drop_last().drop_first()));
        assert(spec_flatten_all(ts) =~= spec_flatten_all(ts.drop_last()) + spec_flatten(ts.last()));
    }
}

/// The snapshot a pair run produces: each UUID maps to its last update.
pub open spec fn spec_snapshot_map(pairs: Seq<(Seq<char>, StateValueV)>) -> Map<Seq<char>, StateValueV>
    decreases pairs.len(),
{
    if pairs.len() == 0 {
        Map::empty()
    } else {
        spec_snapshot_map(pairs.drop_last()).insert(pairs.last().0, pairs.last().1)
    }
}

/// Looks a UUID up in a pair run: the last matching update, as the snapshot
/// map has it.
pub fn snapshot_get<'a>(pairs: &'a Vec<(String, StateValue)>, uuid: &String) -> (r: Option<&'a StateValue>)
    ensures
        r is Some <==> spec_snapshot_map(pairs_view(pairs@)).contains_key(uuid@),
        r matches Some(v) ==> v@ == spec_snapshot_map(pairs_view(pairs@))[uuid@],
{
    let mut i: usize = pairs.len();
    while i > 0
        invariant
            i <= pairs@.len(),
            forall|j: int| i <= j < pairs@.len() ==> (#[trigger] pairs@[j]).0@ != uuid@,
        decreases i,
    {
        i = i - 1;
        if pairs[i].0 == *uuid {
            proof {
                lemma_snapshot_get(pairs_view(pairs@), uuid@, i as int);
            }
            return Some(&pairs[i].1);
        }
    }
    proof {
        lemma_snapshot_absent(pairs_view(pairs@), uuid@);
    }
    None
}

/// If position `i` is the last occurrence of a key, the snapshot maps the
/// key to the value at `i`.
proof fn lemma_snapshot_get(pairs: Seq<(Seq<char>, StateValueV)>, key: Seq<char>, i: int)
    requires
        0 <= i < pairs.len(),
        pairs[i].0 == key,
        forall|j: int| i < j < pairs.len() ==> (#[trigger] pairs[j]).0 != key,
    ensures
        spec_snapshot_map(pairs).contains_key(key),
        spec_snapshot_map(pairs)[key] == pairs[i].1,
    decreases pairs.len(),
{
    if i == pairs.len() - 1 {
    } else {
        lemma_snapshot_get(pairs.drop_last(), key, i);
    }
}

/// A key no pair carries is not in the snapshot.
proof fn lemma_snapshot_absent(pairs: Seq<(Seq<char>, StateValueV)>, key: Seq<char>)
    requires
        forall|j: int| 0 <= j < pairs.len() ==> (#[trigger] pairs[j]).0 != key,
    ensures
        !spec_snapshot_map(pairs).contains_key(key),
    decreases pairs.len(),
{
    if pairs.len() > 0 {
        lemma_snapshot_absent(pairs.drop_last(), key);
    }
}

} // verus!
