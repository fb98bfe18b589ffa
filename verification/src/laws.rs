use vstd::prelude::*;

use crate::error::Error;
use crate::events::{EventBodyModel, EventModel, spec_dump_event, spec_parse_one, event_wf,
    lemma_event_roundtrip};
use crate::ids::TrackId;
use crate::lists::{spec_parse_list_uint, spec_parse_uint_elems};
use crate::reader::spec_next_token;
use crate::state::{spec_effect_step, spec_init_state, spec_insert_effect, spec_remove_effect,
    spec_remove_tracks, spec_remove_unit, spec_replay, spec_source_id, spec_step, spec_target_id,
    strike, EffectMapModel, StateModel};

verus! {

/// Replaying any event sequence and then a log start leaves a fresh
/// state: logs may be concatenated.
pub proof fn lemma_begin_log_resets(m: StateModel, events: Seq<EventModel>, begin_log: EventModel)
    requires
        begin_log.body is BeginLog,
    ensures
        spec_step(spec_replay(m, events), begin_log) == spec_init_state(),
{
}

/// Every live effect row is cross-referenced exactly once by its source
/// and its target, and every cross-reference points back at a live row of
/// that unit.
pub open spec fn effect_map_wf(em: EffectMapModel) -> bool {
    &&& forall|tid: u64| #[trigger] em.effects.dom().contains(tid) ==> {
        let row = em.effects[tid];
        &&& em.granted.dom().contains(spec_source_id(row))
        &&& em.granted[spec_source_id(row)].contains(TrackId(tid))
        &&& em.received.dom().contains(spec_target_id(row))
        &&& em.received[spec_target_id(row)].contains(TrackId(tid))
    }
    &&& forall|u: u64, i: int|
        #![trigger em.granted[u][i]]
        em.granted.dom().contains(u) && 0 <= i < em.granted[u].len() ==> {
            let t = em.granted[u][i];
            em.effects.dom().contains(t.0) && spec_source_id(em.effects[t.0]) == u
        }
    &&& forall|u: u64, i: int|
        #![trigger em.received[u][i]]
        em.received.dom().contains(u) && 0 <= i < em.received[u].len() ==> {
            let t = em.received[u][i];
            em.effects.dom().contains(t.0) && spec_target_id(em.effects[t.0]) == u
        }
    &&& forall|u: u64| #[trigger] em.granted.dom().contains(u) ==> em.granted[u].no_duplicates()
    &&& forall|u: u64| #[trigger] em.received.dom().contains(u) ==> em.received[u].no_duplicates()
}

/// Membership in a list with one track id struck out.
pub proof fn lemma_strike_membership(s: Seq<TrackId>, tid: u64, j: TrackId)
    ensures
        strike(s, tid).contains(j) <==> (s.contains(j) && j.0 != tid),
    decreases s.len(),
{
    reveal(Seq::filter);
    if s.len() > 0 {
        lemma_strike_membership(s.drop_last(), tid, j);
        let f = strike(s, tid);
        let fd = strike(s.drop_last(), tid);
        if s.last().0 != tid {
            assert(f == fd.push(s.last()));
            if fd.contains(j) {
                let idx = choose|idx: int| 0 <= idx < fd.len() && fd[idx] == j;
                assert(f[idx] == j);
            }
            if s.contains(j) && j.0 != tid {
                let idx = choose|idx: int| 0 <= idx < s.len() && s[idx] == j;
                if idx < s.len() - 1 {
                    assert(s.drop_last()[idx] == j);
                    assert(fd.contains(j));
                } else {
                    assert(f[f.len() - 1] == j);
                }
            }
            if f.contains(j) {
                let idx = choose|idx: int| 0 <= idx < f.len() && f[idx] == j;
                if idx < f.len() - 1 {
                    assert(fd[idx] == j);
                    let i3 = choose|i3: int| 0 <= i3 < s.drop_last().len() && s.drop_last()[i3] == j;
                    assert(s[i3] == j);
                } else {
                    assert(j == s.last());
                    assert(s[s.len() - 1] == j);
                }
            }
        } else {
            assert(f == fd);
            if s.contains(j) && j.0 != tid {
                let idx = choose|idx: int| 0 <= idx < s.len() && s[idx] == j;
                assert(idx < s.len() - 1);
                assert(s.drop_last()[idx] == j);
            }
            if f.contains(j) {
                assert(s.drop_last().contains(j) && j.0 != tid);
                let i4 = choose|i4: int| 0 <= i4 < s.drop_last().len() && s.drop_last()[i4] == j;
                assert(s[i4] == j);
            }
        }
    }
}

/// Striking keeps a list free of duplicates.
pub proof fn lemma_strike_nodup(s: Seq<TrackId>, tid: u64)
    requires
        s.no_duplicates(),
    ensures
        strike(s, tid).no_duplicates(),
    decreases s.len(),
{
    reveal(Seq::filter);
    if s.len() > 0 {
        assert(s.drop_last().no_duplicates());
        lemma_strike_nodup(s.drop_last(), tid);
        let f = strike(s, tid);
        let fd = strike(s.drop_last(), tid);
        if s.last().0 != tid {
            assert(f == fd.push(s.last()));
            assert forall|i: int, j: int| 0 <= i < j < f.len() implies f[i] != f[j] by {
                if j == f.len() - 1 {
                    assert(f[i] == fd[i]);
                    assert(fd.contains(fd[i]));
                    lemma_strike_membership(s.drop_last(), tid, fd[i]);
                    assert(s.drop_last().contains(fd[i]));
                    let w = choose|w: int| 0 <= w < s.drop_last().len() && s.drop_last()[w] == fd[i];
                    assert(s[w] == fd[i]);
                    assert(s[w] != s.last());
                }
            }
        }
    }
}

/// Inserting a row keeps the cross-references consistent, as long as a
/// replaced row keeps its source and target.
pub proof fn lemma_insert_effect_wf(em: EffectMapModel, v: crate::events::EventEffectChanged)
    requires
        effect_map_wf(em),
        em.effects.dom().contains(v.cast_id.0) ==> {
            &&& spec_source_id(em.effects[v.cast_id.0]) == spec_source_id(v)
            &&& spec_target_id(em.effects[v.cast_id.0]) == spec_target_id(v)
        },
    ensures
        effect_map_wf(spec_insert_effect(em, v)),
{
    let tid = v.cast_id.0;
    let em2 = spec_insert_effect(em, v);
    if em.effects.dom().contains(tid) {
        assert forall|t: u64| #[trigger] em2.effects.dom().contains(t) implies {
            let row = em2.effects[t];
            &&& em2.granted.dom().contains(spec_source_id(row))
            &&& em2.granted[spec_source_id(row)].contains(TrackId(t))
            &&& em2.received.dom().contains(spec_target_id(row))
            &&& em2.received[spec_target_id(row)].contains(TrackId(t))
        } by {
            assert(em.effects.dom().contains(t));
        }
    } else {
        let src = spec_source_id(v);
        let tgt = spec_target_id(v);
        let gr0 = if em.granted.dom().contains(src) { em.granted[src] } else { Seq::empty() };
        let rc0 = if em.received.dom().contains(tgt) { em.received[tgt] } else { Seq::empty() };
        assert forall|t: u64| #[trigger] em2.effects.dom().contains(t) implies {
            let row = em2.effects[t];
            &&& em2.granted.dom().contains(spec_source_id(row))
            &&& em2.granted[spec_source_id(row)].contains(TrackId(t))
            &&& em2.received.dom().contains(spec_target_id(row))
            &&& em2.received[spec_target_id(row)].contains(TrackId(t))
        } by {
            if t == tid {
                assert(em2.granted[src][gr0.len() as int] == TrackId(tid));
                assert(em2.received[tgt][rc0.len() as int] == TrackId(tid));
            } else {
                assert(em.effects.dom().contains(t));
                let row = em.effects[t];
                if spec_source_id(row) == src {
                    let i = choose|i: int| 0 <= i < gr0.len() && gr0[i] == TrackId(t);
                    assert(em2.granted[src][i] == TrackId(t));
                } else {
                    assert(em2.granted[spec_source_id(row)] == em.granted[spec_source_id(row)]);
                }
                if spec_target_id(row) == tgt {
                    let i = choose|i: int| 0 <= i < rc0.len() && rc0[i] == TrackId(t);
                    assert(em2.received[tgt][i] == TrackId(t));
                } else {
                    assert(em2.received[spec_target_id(row)] == em.received[spec_target_id(row)]);
                }
            }
        }
        assert forall|u: u64, i: int|
            em2.granted.dom().contains(u) && 0 <= i < em2.granted[u].len() implies {
                let t = #[trigger] em2.granted[u][i];
                em2.effects.dom().contains(t.0) && spec_source_id(em2.effects[t.0]) == u
            } by {
            if u == src && i == gr0.len() {
            } else if u == src {
                assert(em2.granted[u][i] == gr0[i]);
                if em.granted.dom().contains(src) {
                    assert(em.granted[src][i] == gr0[i]);
                }
            } else {
                assert(em2.granted[u] == em.granted[u]);
                assert(em.granted[u][i] == em2.granted[u][i]);
            }
        }
        assert forall|u: u64, i: int|
            em2.received.dom().contains(u) && 0 <= i < em2.received[u].len() implies {
                let t = #[trigger] em2.received[u][i];
                em2.effects.dom().contains(t.0) && spec_target_id(em2.effects[t.0]) == u
            } by {
            if u == tgt && i == rc0.len() {
            } else if u == tgt {
                assert(em2.received[u][i] == rc0[i]);
                if em.received.dom().contains(tgt) {
                    assert(em.received[tgt][i] == rc0[i]);
                }
            } else {
                assert(em2.received[u] == em.received[u]);
                assert(em.received[u][i] == em2.received[u][i]);
            }
        }
        assert forall|u: u64| #[trigger] em2.granted.dom().contains(u) implies em2.granted[u].no_duplicates() by {
            if u == src {
                assert forall|i: int, j: int| 0 <= i < j < em2.granted[u].len() implies
                    em2.granted[u][i] != em2.granted[u][j] by {
                    if j == gr0.len() {
                        let t = gr0[i];
                        if em.granted.dom().contains(src) {
                            assert(em.granted[src][i] == t);
                            assert(em.effects.dom().contains(t.0));
                            assert(t.0 != tid);
                        }
                    }
                }
            }
        }
        assert forall|u: u64| #[trigger] em2.received.dom().contains(u) implies em2.received[u].no_duplicates() by {
            if u == tgt {
                assert forall|i: int, j: int| 0 <= i < j < em2.received[u].len() implies
                    em2.received[u][i] != em2.received[u][j] by {
                    if j == rc0.len() {
                        let t = rc0[i];
                        if em.received.dom().contains(tgt) {
                            assert(em.received[tgt][i] == t);
                            assert(em.effects.dom().contains(t.0));
                            assert(t.0 != tid);
                        }
                    }
                }
            }
        }
    }
}

/// Removing a row strikes it from both cross-reference lists and keeps
/// the references consistent.
pub proof fn lemma_remove_effect_wf(em: EffectMapModel, tid: u64)
    requires
        effect_map_wf(em),
    ensures
        effect_map_wf(spec_remove_effect(em, tid)),
{
    if em.effects.dom().contains(tid) {
        let row = em.effects[tid];
        let src = spec_source_id(row);
        let tgt = spec_target_id(row);
        let em2 = spec_remove_effect(em, tid);
        assert forall|t: u64| #[trigger] em2.effects.dom().contains(t) implies {
            let r2 = em2.effects[t];
            &&& em2.granted.dom().contains(spec_source_id(r2))
            &&& em2.granted[spec_source_id(r2)].contains(TrackId(t))
            &&& em2.received.dom().contains(spec_target_id(r2))
            &&& em2.received[spec_target_id(r2)].contains(TrackId(t))
        } by {
            assert(em.effects.dom().contains(t));
            let r2 = em.effects[t];
            assert(t != tid);
            if spec_source_id(r2) == src {
                lemma_strike_membership(em.granted[src], tid, TrackId(t));
            }
            if spec_target_id(r2) == tgt {
                lemma_strike_membership(em.received[tgt], tid, TrackId(t));
            }
        }
        assert forall|u: u64, i: int|
            em2.granted.dom().contains(u) && 0 <= i < em2.granted[u].len() implies {
                let t = #[trigger] em2.granted[u][i];
                em2.effects.dom().contains(t.0) && spec_source_id(em2.effects[t.0]) == u
            } by {
            if u == src {
                let t = em2.granted[u][i];
                assert(em2.granted[u].contains(t));
                lemma_strike_membership(em.granted[src], tid, t);
                assert(em.granted[src].contains(t));
                let i0 = choose|i0: int| 0 <= i0 < em.granted[src].len() && em.granted[src][i0] == t;
                assert(em.granted[src][i0] == t);
            } else {
                assert(em2.granted[u] == em.granted[u]);
                assert(em.granted[u][i] == em2.granted[u][i]);
                let t = em.granted[u][i];
                assert(t.0 != tid);
            }
        }
        assert forall|u: u64, i: int|
            em2.received.dom().contains(u) && 0 <= i < em2.received[u].len() implies {
                let t = #[trigger] em2.received[u][i];
                em2.effects.dom().contains(t.0) && spec_target_id(em2.effects[t.0]) == u
            } by {
            if u == tgt {
                let t = em2.received[u][i];
                assert(em2.received[u].contains(t));
                lemma_strike_membership(em.received[tgt], tid, t);
                assert(em.received[tgt].contains(t));
                let i0 = choose|i0: int| 0 <= i0 < em.received[tgt].len() && em.received[tgt][i0] == t;
                assert(em.received[tgt][i0] == t);
            } else {
                assert(em2.received[u] == em.received[u]);
                assert(em.received[u][i] == em2.received[u][i]);
                let t = em.received[u][i];
                assert(t.0 != tid);
            }
        }
        assert forall|u: u64| #[trigger] em2.granted.dom().contains(u) implies em2.granted[u].no_duplicates() by {
            if u == src {
                lemma_strike_nodup(em.granted[src], tid);
            }
        }
        assert forall|u: u64| #[trigger] em2.received.dom().contains(u) implies em2.received[u].no_duplicates() by {
            if u == tgt {
                lemma_strike_nodup(em.received[tgt], tid);
            }
        }
    }
}

/// The cross-reference consistency is an invariant of the effect graph
/// under every effect event, as long as an update that replaces a live
/// row names the same source and target as the row it replaces.
pub proof fn lemma_effect_step_wf(em: EffectMapModel, v: crate::events::EventEffectChanged)
    requires
        effect_map_wf(em),
        !(v.change_type is Faded) && em.effects.dom().contains(v.cast_id.0) ==> {
            &&& spec_source_id(em.effects[v.cast_id.0]) == spec_source_id(v)
            &&& spec_target_id(em.effects[v.cast_id.0]) == spec_target_id(v)
        },
    ensures
        effect_map_wf(spec_effect_step(em, v)),
{
    match v.change_type {
        crate::enums::EffectChangeType::Gained => lemma_insert_effect_wf(em, v),
        crate::enums::EffectChangeType::Updated => lemma_insert_effect_wf(em, v),
        crate::enums::EffectChangeType::Faded => lemma_remove_effect_wf(em, v.cast_id.0),
    }
}

/// After removing a list of rows that includes every row targeting `u`,
/// and with `u`'s received entry gone, no row targets `u` and `u` has no
/// received entry.
proof fn lemma_remove_tracks_clears_target(em: EffectMapModel, r: Seq<TrackId>, u: u64)
    requires
        !em.received.dom().contains(u),
        forall|tid: u64| #[trigger] em.effects.dom().contains(tid)
            && spec_target_id(em.effects[tid]) == u ==> r.contains(TrackId(tid)),
    ensures
        !spec_remove_tracks(em, r).received.dom().contains(u),
        forall|tid: u64| #[trigger] spec_remove_tracks(em, r).effects.dom().contains(tid)
            ==> spec_target_id(spec_remove_tracks(em, r).effects[tid]) != u,
    decreases r.len(),
{
    if r.len() == 0 {
    } else {
        let em1 = spec_remove_effect(em, r[0].0);
        assert(!em1.received.dom().contains(u));
        assert forall|tid: u64| #[trigger] em1.effects.dom().contains(tid)
            && spec_target_id(em1.effects[tid]) == u implies r.skip(1).contains(TrackId(tid)) by {
            assert(em.effects.dom().contains(tid));
            assert(r.contains(TrackId(tid)));
            let i = choose|i: int| 0 <= i < r.len() && r[i] == TrackId(tid);
            assert(tid != r[0].0);
            assert(i >= 1);
            assert(r.skip(1)[i - 1] == TrackId(tid));
        }
        lemma_remove_tracks_clears_target(em1, r.skip(1), u);
    }
}

/// After a unit is removed: it is gone from the unit table, it has no
/// received-effects entry, and no live row targets it.
pub proof fn lemma_unit_removed(m: StateModel, u: u64)
    requires
        effect_map_wf(m.effects),
    ensures
        !spec_remove_unit(m, u).entities.dom().contains(u),
        !spec_remove_unit(m, u).effects.received.dom().contains(u),
        forall|tid: u64| #[trigger] spec_remove_unit(m, u).effects.effects.dom().contains(tid)
            ==> spec_target_id(spec_remove_unit(m, u).effects.effects[tid]) != u,
{
    let r = if m.effects.received.dom().contains(u) {
        m.effects.received[u]
    } else {
        Seq::empty()
    };
    let em0 = EffectMapModel { received: m.effects.received.remove(u), ..m.effects };
    assert forall|tid: u64| #[trigger] em0.effects.dom().contains(tid)
        && spec_target_id(em0.effects[tid]) == u implies r.contains(TrackId(tid)) by {
        assert(m.effects.effects.dom().contains(tid));
        assert(m.effects.received[spec_target_id(m.effects.effects[tid])].contains(TrackId(tid)));
    }
    lemma_remove_tracks_clears_target(em0, r, u);
}

/// Any line produced by the serializer parses back, and re-serializing
/// what it parsed reproduces the line. This covers every line in the
/// serializer's image; a parseable line outside that image (a number
/// with leading zeros, an alias tag, a redundant trailing `*`) re-emits
/// in canonical spelling instead.
pub proof fn lemma_dump_of_parsed_line(l: Seq<char>, e0: EventModel, e: EventModel)
    requires
        event_wf(e0),
        l == spec_dump_event(e0),
        spec_parse_one(l) == Ok::<EventModel, Error>(e),
    ensures
        spec_dump_event(e) == l,
{
    lemma_event_roundtrip(e0);
}

/// A demanded list raises `NotAList` exactly when the next token is not
/// bracket-shaped; a bracket-shaped token never raises it, since element
/// errors are numeric.
pub proof fn lemma_not_a_list(s: Seq<char>, max: nat)
    requires
        spec_next_token(s) is Some,
    ensures
        ({
            let (tok, _) = spec_next_token(s)->0;
            spec_parse_list_uint(s, max) == Err::<(Seq<u64>, Seq<char>), Error>(Error::NotAList)
                <==> !(tok.len() >= 2 && tok[0] == '[' && tok[tok.len() - 1] == ']')
        }),
{
    let (tok, _) = spec_next_token(s)->0;
    if tok.len() >= 2 && tok[0] == '[' && tok[tok.len() - 1] == ']' {
        lemma_uint_elems_never_not_a_list(tok.subrange(1, tok.len() - 1), max);
    }
}

/// Element errors of a numeric list are numeric, never structural.
proof fn lemma_uint_elems_never_not_a_list(inner: Seq<char>, max: nat)
    ensures
        spec_parse_uint_elems(inner, max) != Err::<Seq<u64>, Error>(Error::NotAList),
    decreases inner.len(),
{
    if inner.len() > 0 {
        match crate::scalars::spec_parse_uint(inner, max) {
            Err(_) => {},
            Ok((v, rest)) => {
                if rest.len() < inner.len() {
                    lemma_uint_elems_never_not_a_list(rest, max);
                }
            },
        }
    }
}

} // verus!
