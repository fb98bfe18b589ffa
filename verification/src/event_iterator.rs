use vstd::prelude::*;

use crate::events::{Event, EventModel};
use crate::state::{spec_init_state, spec_replay, spec_step, State, StateModel};

verus! {

/// Streams `(state, event)` pairs over an owned event list: the state
/// paired with an event is the state before that event is applied; the
/// event is applied before the next pair is fetched.
pub struct EventIterator {
    events: Vec<Event>,
    state: State,
    idx: usize,
    pending: bool,
}

impl EventIterator {
    /// The events this iterator walks.
    pub closed spec fn spec_events(&self) -> Seq<EventModel> {
        self.events@.map_values(|e: Event| e@)
    }

    /// Index of the event currently offered, meaningful while one is.
    pub closed spec fn spec_idx(&self) -> int {
        self.idx as int
    }

    /// Whether a pair is currently offered.
    pub closed spec fn spec_pending(&self) -> bool {
        self.pending
    }

    /// The snapshot tracks the replay of everything before the offered
    /// event.
    pub closed spec fn wf(&self) -> bool {
        &&& self.state.inv()
        &&& self.idx <= self.events@.len()
        &&& self.state@ == spec_replay(spec_init_state(), self.spec_events().take(self.idx as int))
        &&& self.pending ==> self.idx < self.events@.len()
    }

    pub fn new(events: Vec<Event>) -> (r: EventIterator)
        ensures
            r.wf(),
            r.spec_events() == events@.map_values(|e: Event| e@),
            !r.spec_pending(),
            r.spec_idx() == 0,
    {
        let r = EventIterator { events, state: State::new(), idx: 0, pending: false };
        proof {
            assert(r.spec_events().take(0) =~= Seq::<EventModel>::empty());
        }
        r
    }

    /// Applies the offered event, if any, and offers the next one.
    /// Returns whether a pair is now available.
    pub fn advance(&mut self) -> (r: bool)
        requires
            old(self).wf(),
        ensures
            final(self).wf(),
            final(self).spec_events() == old(self).spec_events(),
            r == final(self).spec_pending(),
            final(self).spec_idx() == (if old(self).spec_pending() {
                old(self).spec_idx() + 1
            } else {
                old(self).spec_idx()
            }),
            r == (final(self).spec_idx() < old(self).spec_events().len()),
    {
        let ghost evs = self.spec_events();
        let n = self.events.len();
        if self.pending {
            let ghost i = self.idx as int;
            proof {
                assert(self.idx < n);
            }
            let ev = &self.events[self.idx];
            self.state.handle_event(ev);
            self.idx = self.idx + 1;
            self.pending = false;
            proof {
                assert(evs[i] == old(self).spec_events()[i]);
                assert(ev@ == evs[i]);
                assert(evs.take(i + 1) =~= evs.take(i).push(evs[i]));
                lemma_replay_snoc(spec_init_state(), evs.take(i), evs[i]);
                assert(self.state@ == spec_replay(spec_init_state(), evs.take(i + 1)));
            }
        }
        if self.idx < self.events.len() {
            self.pending = true;
        }
        self.pending
    }

    /// The current pair: the state before the offered event, and the
    /// event itself.
    pub fn get(&self) -> (r: Option<(&State, &Event)>)
        requires
            self.wf(),
        ensures
            match r {
                Some((st, ev)) => {
                    &&& self.spec_pending()
                    &&& st@ == spec_replay(spec_init_state(), self.spec_events().take(self.spec_idx()))
                    &&& ev@ == self.spec_events()[self.spec_idx()]
                },
                None => !self.spec_pending(),
            },
    {
        if self.pending {
            Some((&self.state, &self.events[self.idx]))
        } else {
            None
        }
    }

    /// The state before the offered event.
    pub fn state(&self) -> (r: &State)
        requires
            self.wf(),
        ensures
            r@ == spec_replay(spec_init_state(), self.spec_events().take(self.spec_idx())),
    {
        &self.state
    }

    /// The offered event, if any.
    pub fn event(&self) -> (r: Option<&Event>)
        requires
            self.wf(),
        ensures
            match r {
                Some(ev) => self.spec_pending() && ev@ == self.spec_events()[self.spec_idx()],
                None => !self.spec_pending(),
            },
    {
        if self.pending {
            Some(&self.events[self.idx])
        } else {
            None
        }
    }
}

/// Replaying one more event steps the replayed state once.
pub proof fn lemma_replay_snoc(m: StateModel, evs: Seq<EventModel>, e: EventModel)
    ensures
        spec_replay(m, evs.push(e)) == spec_step(spec_replay(m, evs), e),
    decreases evs.len(),
{
    if evs.len() == 0 {
        assert(evs.push(e)[0] == e);
        assert(evs.push(e).skip(1) =~= Seq::<EventModel>::empty());
        assert(spec_replay(spec_step(m, e), Seq::<EventModel>::empty()) == spec_step(m, e));
        assert(spec_replay(m, evs) == m);
        assert(spec_replay(m, evs.push(e)) == spec_replay(spec_step(m, evs.push(e)[0]), evs.push(e).skip(1)));
    } else {
        assert(evs.push(e)[0] == evs[0]);
        assert(evs.push(e).skip(1) =~= evs.skip(1).push(e));
        lemma_replay_snoc(spec_step(m, evs[0]), evs.skip(1), e);
        assert(spec_replay(m, evs.push(e)) == spec_replay(spec_step(m, evs[0]), evs.skip(1).push(e)));
        assert(spec_replay(m, evs) == spec_replay(spec_step(m, evs[0]), evs.skip(1)));
    }
}

} // verus!
