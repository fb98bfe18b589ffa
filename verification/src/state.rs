use vstd::prelude::*;

use std::collections::HashMap;

use crate::enums::{EffectChangeType, EquipSlot, UnitReactionType, UnitType};
use crate::events::{Event, EventAbilityInfo, EventAbilityInfoModel, EventBodyModel,
    EventEffectChanged, EventEffectInfo, EventModel, EventPlayerInfo, EventType, EventUnitAdded,
    EventUnitChanged, EventUnitRemoved};
use crate::ids::{AbilityId, ClassId, MonsterId, RaceId, TrackId, UnitId};
use crate::unit_state::{EquipmentInfo, UnitState, spec_zero_unit_state};

verus! {

broadcast use vstd::std_specs::hash::group_hash_axioms;

/// Everything the projector remembers about one unit.
#[derive(Debug, Clone)]
pub struct Unit {
    pub unit_type: UnitType,
    pub state: UnitState,
    pub reaction: UnitReactionType,
    pub equipment: HashMap<u64, EquipmentInfo>,
    pub name: String,
    pub display_name: String,
    pub monster_id: MonsterId,
    pub race_id: RaceId,
    pub class_id: ClassId,
    pub is_boss: bool,
}

/// Mathematical image of [`Unit`]; equipment is keyed by slot code.
#[verifier::ext_equal]
pub ghost struct UnitModel {
    pub unit_type: UnitType,
    pub state: UnitState,
    pub reaction: UnitReactionType,
    pub equipment: Map<u64, EquipmentInfo>,
    pub name: Seq<char>,
    pub display_name: Seq<char>,
    pub monster_id: MonsterId,
    pub race_id: RaceId,
    pub class_id: ClassId,
    pub is_boss: bool,
}

impl View for Unit {
    type V = UnitModel;

    open spec fn view(&self) -> UnitModel {
        UnitModel {
            unit_type: self.unit_type,
            state: self.state,
            reaction: self.reaction,
            equipment: self.equipment@,
            name: self.name@,
            display_name: self.display_name@,
            monster_id: self.monster_id,
            race_id: self.race_id,
            class_id: self.class_id,
            is_boss: self.is_boss,
        }
    }
}

impl Unit {
    pub fn unit_type(&self) -> (r: &UnitType)
        ensures
            r == &self.unit_type,
    {
        &self.unit_type
    }

    pub fn state(&self) -> (r: &UnitState)
        ensures
            r == &self.state,
    {
        &self.state
    }

    pub fn reaction(&self) -> (r: &UnitReactionType)
        ensures
            r == &self.reaction,
    {
        &self.reaction
    }

    pub fn equipment(&self) -> (r: &HashMap<u64, EquipmentInfo>)
        ensures
            r == &self.equipment,
    {
        &self.equipment
    }

    pub fn name(&self) -> (r: &String)
        ensures
            r == &self.name,
    {
        &self.name
    }

    pub fn display_name(&self) -> (r: &String)
        ensures
            r == &self.display_name,
    {
        &self.display_name
    }

    pub fn monster_id(&self) -> (r: &MonsterId)
        ensures
            r == &self.monster_id,
    {
        &self.monster_id
    }

    pub fn race_id(&self) -> (r: &RaceId)
        ensures
            r == &self.race_id,
    {
        &self.race_id
    }

    pub fn class_id(&self) -> (r: &ClassId)
        ensures
            r == &self.class_id,
    {
        &self.class_id
    }

    pub fn is_boss(&self) -> (r: &bool)
        ensures
            r == &self.is_boss,
    {
        &self.is_boss
    }
}

/// All live effect rows, cross-referenced by the units that grant and
/// receive them.
#[derive(Debug, Clone)]
pub struct EffectMap {
    pub effects: HashMap<u64, EventEffectChanged>,
    pub received_effects: HashMap<u64, Vec<TrackId>>,
    pub granted_effects: HashMap<u64, Vec<TrackId>>,
}

/// Mathematical image of [`EffectMap`].
#[verifier::ext_equal]
pub ghost struct EffectMapModel {
    pub effects: Map<u64, EventEffectChanged>,
    pub received: Map<u64, Seq<TrackId>>,
    pub granted: Map<u64, Seq<TrackId>>,
}

/// Lifts a map of vectors to a map of sequences.
pub open spec fn map_vec_view(m: Map<u64, Vec<TrackId>>) -> Map<u64, Seq<TrackId>> {
    Map::new(|k: u64| m.dom().contains(k), |k: u64| m[k]@)
}

impl View for EffectMap {
    type V = EffectMapModel;

    open spec fn view(&self) -> EffectMapModel {
        EffectMapModel {
            effects: self.effects@,
            received: map_vec_view(self.received_effects@),
            granted: map_vec_view(self.granted_effects@),
        }
    }
}

/// The unit an effect lands on: the explicit target, or the source when
/// the wire wrote `*`.
pub open spec fn spec_target_id(v: EventEffectChanged) -> u64 {
    match v.target_unit.0 {
        Some(u) => u.unit_id.0,
        None => v.source_unit.unit_id.0,
    }
}

/// The unit an effect comes from.
pub open spec fn spec_source_id(v: EventEffectChanged) -> u64 {
    v.source_unit.unit_id.0
}

/// A sequence with one track id struck out.
pub open spec fn strike(s: Seq<TrackId>, tid: u64) -> Seq<TrackId> {
    s.filter(|t: TrackId| t.0 != tid)
}

/// A sequence of unit numbers with one struck out.
pub open spec fn drop_key(s: Seq<u64>, u: u64) -> Seq<u64> {
    s.filter(|k: u64| k != u)
}

/// Upsert of an effect row: a fresh row is also cross-referenced on its
/// source and target; a replaced row leaves the references alone.
pub open spec fn spec_insert_effect(em: EffectMapModel, v: EventEffectChanged) -> EffectMapModel {
    let tid = v.cast_id.0;
    if em.effects.dom().contains(tid) {
        EffectMapModel { effects: em.effects.insert(tid, v), ..em }
    } else {
        let src = spec_source_id(v);
        let tgt = spec_target_id(v);
        let gr = if em.granted.dom().contains(src) {
            em.granted[src]
        } else {
            Seq::empty()
        };
        let rc = if em.received.dom().contains(tgt) {
            em.received[tgt]
        } else {
            Seq::empty()
        };
        EffectMapModel {
            effects: em.effects.insert(tid, v),
            granted: em.granted.insert(src, gr.push(TrackId(tid))),
            received: em.received.insert(tgt, rc.push(TrackId(tid))),
        }
    }
}

/// Removal of an effect row together with both cross-references.
pub open spec fn spec_remove_effect(em: EffectMapModel, tid: u64) -> EffectMapModel {
    if em.effects.dom().contains(tid) {
        let row = em.effects[tid];
        let src = spec_source_id(row);
        let tgt = spec_target_id(row);
        let gr = if em.granted.dom().contains(src) {
            em.granted.insert(src, strike(em.granted[src], tid))
        } else {
            em.granted
        };
        let rc = if em.received.dom().contains(tgt) {
            em.received.insert(tgt, strike(em.received[tgt], tid))
        } else {
            em.received
        };
        EffectMapModel { effects: em.effects.remove(tid), granted: gr, received: rc }
    } else {
        em
    }
}

/// What one `EffectChanged` event does to the effect graph.
pub open spec fn spec_effect_step(em: EffectMapModel, v: EventEffectChanged) -> EffectMapModel {
    match v.change_type {
        EffectChangeType::Gained => spec_insert_effect(em, v),
        EffectChangeType::Updated => spec_insert_effect(em, v),
        EffectChangeType::Faded => spec_remove_effect(em, v.cast_id.0),
    }
}

impl EffectMap {
    /// A fresh, empty effect graph.
    pub fn new() -> (r: EffectMap)
        ensures
            r@ == spec_empty_effect_map(),
    {
        let r = EffectMap {
            effects: HashMap::new(),
            received_effects: HashMap::new(),
            granted_effects: HashMap::new(),
        };
        proof {
            assert(map_vec_view(r.received_effects@) =~= Map::<u64, Seq<TrackId>>::empty());
            assert(map_vec_view(r.granted_effects@) =~= Map::<u64, Seq<TrackId>>::empty());
            assert(r@ =~~= spec_empty_effect_map());
        }
        r
    }

    /// Looks an effect up by its track id.
    pub fn get_by_id(&self, track_id: &TrackId) -> (r: Option<&EventEffectChanged>)
        ensures
            match r {
                Some(v) => self@.effects.dom().contains(track_id.0) && *v == self@.effects[track_id.0],
                None => !self@.effects.dom().contains(track_id.0),
            },
    {
        self.effects.get(&track_id.0)
    }

    /// All effects a unit has granted.
    pub fn get_granted_effects(&self, unit_id: &UnitId) -> (r: Option<&Vec<TrackId>>)
        ensures
            match r {
                Some(v) => self@.granted.dom().contains(unit_id.0) && v@ == self@.granted[unit_id.0],
                None => !self@.granted.dom().contains(unit_id.0),
            },
    {
        self.granted_effects.get(&unit_id.0)
    }

    /// All effects a unit has received.
    pub fn get_received_effects(&self, unit_id: &UnitId) -> (r: Option<&Vec<TrackId>>)
        ensures
            match r {
                Some(v) => self@.received.dom().contains(unit_id.0) && v@ == self@.received[unit_id.0],
                None => !self@.received.dom().contains(unit_id.0),
            },
    {
        self.received_effects.get(&unit_id.0)
    }

    /// All live effect rows.
    pub fn effects(&self) -> (r: &HashMap<u64, EventEffectChanged>)
        ensures
            r == &self.effects,
    {
        &self.effects
    }

    /// Strikes `tid` out of the vector held under `key`, if any.
    fn strike_from(m: &mut HashMap<u64, Vec<TrackId>>, key: u64, tid: u64)
        ensures
            map_vec_view(final(m)@) == (if old(m)@.dom().contains(key) {
                map_vec_view(old(m)@).insert(key, strike(old(m)@[key]@, tid))
            } else {
                map_vec_view(old(m)@)
            }),
    {
        let cur = match m.get(&key) {
            Some(v) => v,
            None => {
                proof {
                    assert(map_vec_view(m@) =~= map_vec_view(old(m)@));
                }
                return;
            },
        };
        let mut fresh: Vec<TrackId> = Vec::new();
        let mut i: usize = 0;
        let ghost orig = cur@;
        while i < cur.len()
            invariant
                i <= orig.len(),
                orig == cur@,
                fresh@ == orig.take(i as int).filter(|t: TrackId| t.0 != tid),
            decreases orig.len() - i,
        {
            let t = cur[i];
            proof {
                assert(orig.take(i as int + 1).drop_last() =~= orig.take(i as int));
                assert(orig.take(i as int + 1).last() == orig[i as int]);
                reveal(Seq::filter);
            }
            if t.0 != tid {
                fresh.push(t);
            }
            i = i + 1;
        }
        proof {
            assert(orig.take(orig.len() as int) =~= orig);
        }
        m.insert(key, fresh);
        proof {
            assert(map_vec_view(m@) =~= map_vec_view(old(m)@).insert(key, strike(old(m)@[key]@, tid)));
        }
    }

    /// Appends `tid` to the vector held under `key`, starting one when
    /// there is none.
    fn push_to(m: &mut HashMap<u64, Vec<TrackId>>, key: u64, tid: TrackId)
        ensures
            map_vec_view(final(m)@) == map_vec_view(old(m)@).insert(key, (if old(m)@.dom().contains(key) {
                old(m)@[key]@
            } else {
                Seq::<TrackId>::empty()
            }).push(tid)),
    {
        let mut fresh: Vec<TrackId> = Vec::new();
        match m.get(&key) {
            Some(cur) => {
                let ghost orig = cur@;
                let mut i: usize = 0;
                while i < cur.len()
                    invariant
                        i <= orig.len(),
                        orig == cur@,
                        fresh@ == orig.take(i as int),
                    decreases orig.len() - i,
                {
                    fresh.push(cur[i]);
                    proof {
                        assert(orig.take(i as int + 1) =~= orig.take(i as int).push(orig[i as int]));
                    }
                    i = i + 1;
                }
                proof {
                    assert(orig.take(orig.len() as int) =~= orig);
                }
            },
            None => {},
        }
        fresh.push(tid);
        m.insert(key, fresh);
        proof {
            assert(map_vec_view(m@) =~= map_vec_view(old(m)@).insert(key, (if old(m)@.dom().contains(key) {
                old(m)@[key]@
            } else {
                Seq::<TrackId>::empty()
            }).push(tid)));
        }
    }

    /// Processes one `EffectChanged` event.
    pub fn handle_effect_changed(&mut self, e: &EventEffectChanged)
        ensures
            final(self)@ == spec_effect_step(old(self)@, *e),
    {
        match e.change_type {
            EffectChangeType::Gained => self.insert(e),
            EffectChangeType::Updated => self.insert(e),
            EffectChangeType::Faded => self.remove(&e.cast_id),
        }
    }

    fn insert(&mut self, e: &EventEffectChanged)
        ensures
            final(self)@ == spec_insert_effect(old(self)@, *e),
    {
        let tid = e.cast_id.0;
        let had = self.effects.contains_key(&tid);
        self.effects.insert(tid, *e);
        if !had {
            let src = e.source_unit.unit_id.0;
            let tgt = e.target_unit.get(&e.source_unit).unit_id.0;
            Self::push_to(&mut self.granted_effects, src, TrackId(tid));
            Self::push_to(&mut self.received_effects, tgt, TrackId(tid));
            proof {
                assert(tgt == spec_target_id(*e));
                assert(self@ =~~= spec_insert_effect(old(self)@, *e));
            }
        } else {
            proof {
                assert(map_vec_view(self.granted_effects@) =~= old(self)@.granted);
                assert(map_vec_view(self.received_effects@) =~= old(self)@.received);
                assert(self@ =~~= spec_insert_effect(old(self)@, *e));
            }
        }
    }

    fn remove(&mut self, id: &TrackId)
        ensures
            final(self)@ == spec_remove_effect(old(self)@, id.0),
    {
        let row = match self.effects.remove(&id.0) {
            Some(r) => r,
            None => {
                proof {
                    assert(self@ =~~= spec_remove_effect(old(self)@, id.0));
                }
                return;
            },
        };
        let src = row.source_unit.unit_id.0;
        let tgt = row.target_unit.get(&row.source_unit).unit_id.0;
        Self::strike_from(&mut self.granted_effects, src, id.0);
        Self::strike_from(&mut self.received_effects, tgt, id.0);
        proof {
            assert(tgt == spec_target_id(row));
            assert(self@ =~~= spec_remove_effect(old(self)@, id.0));
        }
    }
}

/// An empty effect graph.
pub open spec fn spec_empty_effect_map() -> EffectMapModel {
    EffectMapModel {
        effects: Map::empty(),
        received: Map::empty(),
        granted: Map::empty(),
    }
}

/// First-write-wins cache of per-ability information.
#[derive(Debug, Clone)]
pub struct AbilityInfoMap<T>(pub HashMap<u64, T>);

impl<T> View for AbilityInfoMap<T> {
    type V = Map<u64, T>;

    open spec fn view(&self) -> Map<u64, T> {
        self.0@
    }
}

impl<T> AbilityInfoMap<T> {
    pub fn new() -> (r: AbilityInfoMap<T>)
        ensures
            r@ == Map::<u64, T>::empty(),
    {
        AbilityInfoMap(HashMap::new())
    }

    /// Retrieves the stored information for an ability.
    pub fn get_info(&self, ability_id: &AbilityId) -> (r: Option<&T>)
        ensures
            match r {
                Some(v) => self@.dom().contains(ability_id.0) && *v == self@[ability_id.0],
                None => !self@.dom().contains(ability_id.0),
            },
    {
        self.0.get(&ability_id.0)
    }

    /// Raw access to the underlying table, keyed by ability number.
    pub fn inner(&self) -> (r: &HashMap<u64, T>)
        ensures
            r == &self.0,
    {
        &self.0
    }
}

impl AbilityInfoMap<EventAbilityInfo> {
    /// Stores the record unless one is already present.
    pub fn insert(&mut self, id: AbilityId, info: &EventAbilityInfo)
        ensures
            final(self)@ == (if old(self)@.dom().contains(id.0) {
                old(self)@
            } else {
                old(self)@.insert(id.0, *info)
            }),
    {
        if !self.0.contains_key(&id.0) {
            self.0.insert(id.0, info.duplicate());
        }
    }
}

impl AbilityInfoMap<EventEffectInfo> {
    /// Stores the record unless one is already present.
    pub fn insert(&mut self, id: AbilityId, info: &EventEffectInfo)
        ensures
            final(self)@ == (if old(self)@.dom().contains(id.0) {
                old(self)@
            } else {
                old(self)@.insert(id.0, *info)
            }),
    {
        if !self.0.contains_key(&id.0) {
            self.0.insert(id.0, *info);
        }
    }
}

/// Folds a list of worn equipment into a slot-keyed table.
pub open spec fn spec_equip_fold(eq: Map<u64, EquipmentInfo>, items: Seq<EquipmentInfo>) -> Map<u64, EquipmentInfo>
    decreases items.len(),
{
    if items.len() == 0 {
        eq
    } else {
        spec_equip_fold(eq.insert(items[0].slot.spec_code(), items[0]), items.skip(1))
    }
}

impl EquipSlot {
    /// A distinct number for each slot, used to key equipment tables.
    pub open spec fn spec_code(self) -> u64 {
        match self {
            EquipSlot::BackupMain => 0,
            EquipSlot::BackupOff => 1,
            EquipSlot::BackupPoison => 2,
            EquipSlot::Chest => 3,
            EquipSlot::Class1 => 4,
            EquipSlot::Class2 => 5,
            EquipSlot::Class3 => 6,
            EquipSlot::Costume => 7,
            EquipSlot::Feet => 8,
            EquipSlot::Hand => 9,
            EquipSlot::Head => 10,
            EquipSlot::Legs => 11,
            EquipSlot::MainHand => 12,
            EquipSlot::Neck => 13,
            EquipSlot::NoneKind => 14,
            EquipSlot::OffHand => 15,
            EquipSlot::Poison => 16,
            EquipSlot::Ranged => 17,
            EquipSlot::Ring1 => 18,
            EquipSlot::Ring2 => 19,
            EquipSlot::Shoulders => 20,
            EquipSlot::Waist => 21,
            EquipSlot::Wrist => 22,
        }
    }

    /// See [`EquipSlot::spec_code`].
    pub fn code(&self) -> (r: u64)
        ensures
            r == self.spec_code(),
    {
        match self {
            EquipSlot::BackupMain => 0,
            EquipSlot::BackupOff => 1,
            EquipSlot::BackupPoison => 2,
            EquipSlot::Chest => 3,
            EquipSlot::Class1 => 4,
            EquipSlot::Class2 => 5,
            EquipSlot::Class3 => 6,
            EquipSlot::Costume => 7,
            EquipSlot::Feet => 8,
            EquipSlot::Hand => 9,
            EquipSlot::Head => 10,
            EquipSlot::Legs => 11,
            EquipSlot::MainHand => 12,
            EquipSlot::Neck => 13,
            EquipSlot::NoneKind => 14,
            EquipSlot::OffHand => 15,
            EquipSlot::Poison => 16,
            EquipSlot::Ranged => 17,
            EquipSlot::Ring1 => 18,
            EquipSlot::Ring2 => 19,
            EquipSlot::Shoulders => 20,
            EquipSlot::Waist => 21,
            EquipSlot::Wrist => 22,
        }
    }
}

impl EventAbilityInfo {
    /// A fresh copy of this record.
    pub fn duplicate(&self) -> (r: EventAbilityInfo)
        ensures
            r == *self,
    {
        EventAbilityInfo {
            ability_id: self.ability_id,
            name: self.name.clone(),
            icon_path: self.icon_path.clone(),
            interruptible: self.interruptible,
            blockable: self.blockable,
        }
    }
}

/// Live world state, folded from the event stream.
#[derive(Debug, Clone)]
pub struct State {
    pub entities: HashMap<u64, Unit>,
    pub entity_order: Vec<u64>,
    pub effects: EffectMap,
    pub ability_info: AbilityInfoMap<EventAbilityInfo>,
    pub effect_info: AbilityInfoMap<EventEffectInfo>,
    pub in_combat: bool,
}

/// Lifts a map of units to a map of their models.
pub open spec fn unit_map_view(m: Map<u64, Unit>) -> Map<u64, UnitModel> {
    Map::new(|k: u64| m.dom().contains(k), |k: u64| m[k]@)
}

/// Lifts an ability-information table to its model.
pub open spec fn info_map_view(m: Map<u64, EventAbilityInfo>) -> Map<u64, EventAbilityInfoModel> {
    Map::new(|k: u64| m.dom().contains(k), |k: u64| m[k]@)
}

/// Mathematical image of [`State`].
#[verifier::ext_equal]
pub ghost struct StateModel {
    pub entities: Map<u64, UnitModel>,
    pub entity_order: Seq<u64>,
    pub effects: EffectMapModel,
    pub ability_info: Map<u64, EventAbilityInfoModel>,
    pub effect_info: Map<u64, EventEffectInfo>,
    pub in_combat: bool,
}

impl View for State {
    type V = StateModel;

    open spec fn view(&self) -> StateModel {
        StateModel {
            entities: unit_map_view(self.entities@),
            entity_order: self.entity_order@,
            effects: self.effects@,
            ability_info: info_map_view(self.ability_info@),
            effect_info: self.effect_info@,
            in_combat: self.in_combat,
        }
    }
}

/// The unit that stands for the world itself.
pub open spec fn spec_world_unit() -> UnitModel {
    UnitModel {
        unit_type: UnitType::Object,
        state: spec_zero_unit_state(UnitId(0)),
        reaction: UnitReactionType::Hostile,
        equipment: Map::empty(),
        name: "World"@,
        display_name: "World"@,
        monster_id: MonsterId(0),
        race_id: RaceId(0),
        class_id: ClassId(0),
        is_boss: false,
    }
}

/// A freshly created state: the world unit and nothing else.
pub open spec fn spec_init_state() -> StateModel {
    StateModel {
        entities: Map::empty().insert(0, spec_world_unit()),
        entity_order: seq![0u64],
        effects: spec_empty_effect_map(),
        ability_info: Map::empty(),
        effect_info: Map::empty(),
        in_combat: false,
    }
}

/// Replaces the last-seen state of the mentioned unit; unknown units are
/// silently skipped.
pub open spec fn spec_upd_unit_state(m: StateModel, us: UnitState) -> StateModel {
    let k = us.unit_id.0;
    if m.entities.dom().contains(k) {
        StateModel {
            entities: m.entities.insert(k, UnitModel { state: us, ..m.entities[k] }),
            ..m
        }
    } else {
        m
    }
}

/// A new unit enters, with a zeroed state and empty equipment.
pub open spec fn spec_add_unit(m: StateModel, e: crate::events::EventUnitAddedModel) -> StateModel {
    let k = e.unit_id.0;
    StateModel {
        entities: m.entities.insert(k, UnitModel {
            unit_type: e.unit_type,
            state: spec_zero_unit_state(e.unit_id),
            reaction: e.reaction,
            equipment: Map::empty(),
            name: e.name,
            display_name: e.display_name,
            monster_id: e.monster_id,
            race_id: e.race_id,
            class_id: e.class_id,
            is_boss: e.is_boss,
        }),
        entity_order: if m.entities.dom().contains(k) {
            m.entity_order
        } else {
            m.entity_order.push(k)
        },
        ..m
    }
}

/// Only the unit's reaction follows a change event.
pub open spec fn spec_update_unit(m: StateModel, e: crate::events::EventUnitChangedModel) -> StateModel {
    let k = e.unit_id.0;
    if m.entities.dom().contains(k) {
        StateModel {
            entities: m.entities.insert(k, UnitModel { reaction: e.reaction, ..m.entities[k] }),
            ..m
        }
    } else {
        m
    }
}

/// Removes a list of effect rows one by one.
pub open spec fn spec_remove_tracks(em: EffectMapModel, r: Seq<TrackId>) -> EffectMapModel
    decreases r.len(),
{
    if r.len() == 0 {
        em
    } else {
        spec_remove_tracks(spec_remove_effect(em, r[0].0), r.skip(1))
    }
}

/// Removes a unit: its entry, its received effects, and every row those
/// received effects point at, together with the rows' cross-references.
pub open spec fn spec_remove_unit(m: StateModel, u: u64) -> StateModel {
    let r = if m.effects.received.dom().contains(u) {
        m.effects.received[u]
    } else {
        Seq::empty()
    };
    let em0 = EffectMapModel { received: m.effects.received.remove(u), ..m.effects };
    let em1 = spec_remove_tracks(em0, r);
    StateModel {
        entities: m.entities.remove(u),
        entity_order: drop_key(m.entity_order, u),
        effects: em1,
        ..m
    }
}

/// Removes every unit in the list, front to back.
pub open spec fn spec_remove_units(m: StateModel, ids: Seq<u64>) -> StateModel
    decreases ids.len(),
{
    if ids.len() == 0 {
        m
    } else {
        spec_remove_units(spec_remove_unit(m, ids[0]), ids.skip(1))
    }
}

/// The units swept away when combat ends: everything with a nonzero
/// monster id, in insertion order.
pub open spec fn spec_hostiles(m: StateModel) -> Seq<u64> {
    m.entity_order.filter(|k: u64| m.entities.dom().contains(k) && m.entities[k].monster_id.0 != 0)
}

/// Replaces or stores the player's equipment, slot by slot.
pub open spec fn spec_update_player(m: StateModel, e: crate::events::EventPlayerInfoModel) -> StateModel {
    let k = e.unit_id.0;
    if m.entities.dom().contains(k) {
        StateModel {
            entities: m.entities.insert(k, UnitModel {
                equipment: spec_equip_fold(m.entities[k].equipment, e.equipment_info),
                ..m.entities[k]
            }),
            ..m
        }
    } else {
        m
    }
}

/// What one event does to the projected state.
pub open spec fn spec_step(m: StateModel, e: EventModel) -> StateModel {
    match e.body {
        EventBodyModel::AbilityInfo(v) => StateModel {
            ability_info: if m.ability_info.dom().contains(v.ability_id.0) {
                m.ability_info
            } else {
                m.ability_info.insert(v.ability_id.0, v)
            },
            ..m
        },
        EventBodyModel::EffectInfo(v) => StateModel {
            effect_info: if m.effect_info.dom().contains(v.ability_id.0) {
                m.effect_info
            } else {
                m.effect_info.insert(v.ability_id.0, v)
            },
            ..m
        },
        EventBodyModel::BeginCombat(_) => StateModel { in_combat: true, ..m },
        EventBodyModel::BeginLog(_) => spec_init_state(),
        EventBodyModel::CombatEvent(v) => {
            let m1 = spec_upd_unit_state(m, v.source_unit);
            let tgt = match v.target_unit.0 {
                Some(u) => u,
                None => v.source_unit,
            };
            spec_upd_unit_state(m1, tgt)
        },
        EventBodyModel::EffectChanged(v) => StateModel {
            effects: spec_effect_step(m.effects, v),
            ..m
        },
        EventBodyModel::EndCombat(_) => StateModel {
            in_combat: false,
            ..spec_remove_units(m, spec_hostiles(m))
        },
        EventBodyModel::HealthRegen(v) => spec_upd_unit_state(m, v.unit),
        EventBodyModel::PlayerInfo(v) => spec_update_player(m, v),
        EventBodyModel::UnitAdded(v) => spec_add_unit(m, v),
        EventBodyModel::UnitChanged(v) => spec_update_unit(m, v),
        EventBodyModel::UnitRemoved(v) => spec_remove_unit(m, v.unit_id.0),
        _ => m,
    }
}

/// Replays a whole sequence of events.
pub open spec fn spec_replay(m: StateModel, events: Seq<EventModel>) -> StateModel
    decreases events.len(),
{
    if events.len() == 0 {
        m
    } else {
        spec_replay(spec_step(m, events[0]), events.skip(1))
    }
}

impl State {
    /// Bookkeeping tying the insertion-order list to the unit table.
    pub open spec fn inv(&self) -> bool {
        forall|k: u64| self@.entities.dom().contains(k) <==> self@.entity_order.contains(k)
    }

    /// A fresh state holding only the world unit.
    pub fn new() -> (r: State)
        ensures
            r@ == spec_init_state(),
            r.inv(),
    {
        let mut entities: HashMap<u64, Unit> = HashMap::new();
        let world = Unit {
            unit_type: UnitType::Object,
            state: UnitState::new(UnitId(0)),
            reaction: UnitReactionType::Hostile,
            equipment: HashMap::new(),
            name: String::from_str("World"),
            display_name: String::from_str("World"),
            monster_id: MonsterId(0),
            race_id: RaceId(0),
            class_id: ClassId(0),
            is_boss: false,
        };
        entities.insert(0, world);
        let mut entity_order: Vec<u64> = Vec::new();
        entity_order.push(0);
        let r = State {
            entities,
            entity_order,
            effects: EffectMap::new(),
            ability_info: AbilityInfoMap::new(),
            effect_info: AbilityInfoMap::new(),
            in_combat: false,
        };
        proof {
            assert(r.entity_order@ =~= seq![0u64]);
            assert(unit_map_view(r.entities@) =~= spec_init_state().entities);
            assert(info_map_view(r.ability_info@) =~= Map::<u64, EventAbilityInfoModel>::empty());
            assert(r@ =~~= spec_init_state());
            assert forall|k: u64| r@.entities.dom().contains(k) <==> r@.entity_order.contains(k) by {
                if k == 0 {
                    assert(r.entity_order@[0] == 0u64);
                } else if r@.entity_order.contains(k) {
                    let idx = choose|idx: int| 0 <= idx < r.entity_order@.len() && r.entity_order@[idx] == k;
                    assert(idx == 0);
                }
            }
            assert(r.inv());
        }
        r
    }

    /// All known units, keyed by unit number.
    pub fn entities(&self) -> (r: &HashMap<u64, Unit>)
        ensures
            r == &self.entities,
    {
        &self.entities
    }

    /// The live effect graph.
    pub fn effects(&self) -> (r: &EffectMap)
        ensures
            r == &self.effects,
    {
        &self.effects
    }

    /// The ability-information cache.
    pub fn ability_info(&self) -> (r: &AbilityInfoMap<EventAbilityInfo>)
        ensures
            r == &self.ability_info,
    {
        &self.ability_info
    }

    /// The effect-information cache.
    pub fn effect_info(&self) -> (r: &AbilityInfoMap<EventEffectInfo>)
        ensures
            r == &self.effect_info,
    {
        &self.effect_info
    }

    /// Whether a combat encounter is open.
    pub fn in_combat(&self) -> (r: &bool)
        ensures
            r == &self.in_combat,
    {
        &self.in_combat
    }

    /// Processes one event, updating, storing or removing data as the
    /// event demands.
    pub fn handle_event(&mut self, e: &Event)
        requires
            old(self).inv(),
        ensures
            final(self).inv(),
            final(self)@ == spec_step(old(self)@, e@),
    {
        match &e.event {
            EventType::AbilityInfo(v) => {
                self.ability_info.insert(v.ability_id, v);
                proof {
                    if old(self)@.ability_info.dom().contains(v.ability_id.0) {
                        assert(info_map_view(self.ability_info@) =~= old(self)@.ability_info);
                    } else {
                        assert(info_map_view(self.ability_info@) =~= old(self)@.ability_info.insert(v.ability_id.0, v@));
                    }
                    assert(self@ =~~= spec_step(old(self)@, e@));
                }
            },
            EventType::EffectInfo(v) => {
                self.effect_info.insert(v.ability_id, v);
                proof {
                    assert(self@ =~~= spec_step(old(self)@, e@));
                }
            },
            EventType::BeginCombat(_) => {
                self.in_combat = true;
                proof {
                    assert(self@ =~~= spec_step(old(self)@, e@));
                }
            },
            EventType::BeginLog(_) => {
                *self = State::new();
            },
            EventType::CombatEvent(v) => {
                self.update_unit_state(&v.source_unit);
                let tgt = v.target_unit.get(&v.source_unit);
                let tgt_copy = *tgt;
                self.update_unit_state(&tgt_copy);
            },
            EventType::EffectChanged(v) => {
                self.effects.handle_effect_changed(v);
                proof {
                    assert(self@ =~~= spec_step(old(self)@, e@));
                }
            },
            EventType::EndCombat(_) => {
                self.remove_enemy_units();
                self.in_combat = false;
                proof {
                    assert(self@ =~~= spec_step(old(self)@, e@));
                }
            },
            EventType::HealthRegen(v) => {
                self.update_unit_state(&v.unit);
            },
            EventType::PlayerInfo(v) => {
                self.update_player(v);
            },
            EventType::UnitAdded(v) => {
                self.add_unit(v);
            },
            EventType::UnitChanged(v) => {
                self.update_unit(v);
            },
            EventType::UnitRemoved(v) => {
                self.remove_unit_by_id(v.unit_id.0);
            },
            EventType::BeginCast(_) => {},
            EventType::BeginTrial(_) => {},
            EventType::EndCast(_) => {},
            EventType::EndLog(_) => {},
            EventType::EndTrial(_) => {},
            EventType::MapChanged(_) => {},
            EventType::TrialInit(_) => {},
            EventType::ZoneChanged(_) => {},
        }
    }

    /// Processes a whole batch of events in order.
    pub fn handle_events(&mut self, events: &Vec<Event>)
        requires
            old(self).inv(),
        ensures
            final(self).inv(),
            final(self)@ == spec_replay(old(self)@, events@.map_values(|e: Event| e@)),
    {
        let ghost evs = events@.map_values(|e: Event| e@);
        proof {
            assert(evs.skip(0) =~= evs);
        }
        let mut i: usize = 0;
        while i < events.len()
            invariant
                self.inv(),
                i <= events@.len(),
                evs == events@.map_values(|e: Event| e@),
                spec_replay(old(self)@, evs) == spec_replay(self@, evs.skip(i as int)),
            decreases events@.len() - i,
        {
            proof {
                assert(evs.skip(i as int)[0] == evs[i as int]);
                assert(evs.skip(i as int).skip(1) =~= evs.skip(i as int + 1));
            }
            self.handle_event(&events[i]);
            i = i + 1;
        }
        proof {
            assert(evs.skip(evs.len() as int).len() == 0);
        }
    }

    fn add_unit(&mut self, e: &EventUnitAdded)
        requires
            old(self).inv(),
        ensures
            final(self).inv(),
            final(self)@ == spec_add_unit(old(self)@, e@),
    {
        let k = e.unit_id.0;
        let fresh = Unit {
            unit_type: e.unit_type,
            state: UnitState::new(e.unit_id),
            reaction: e.reaction,
            equipment: HashMap::new(),
            name: e.name.clone(),
            display_name: e.display_name.clone(),
            monster_id: e.monster_id,
            race_id: e.race_id,
            class_id: e.class_id,
            is_boss: e.is_boss,
        };
        let had = self.entities.contains_key(&k);
        self.entities.insert(k, fresh);
        if !had {
            self.entity_order.push(k);
        }
        proof {
            assert(unit_map_view(self.entities@) =~= spec_add_unit(old(self)@, e@).entities);
            assert(self@ =~~= spec_add_unit(old(self)@, e@));
            assert forall|j: u64| self@.entities.dom().contains(j) <==> self@.entity_order.contains(j) by {
                if !had {
                    assert(self.entity_order@ == old(self).entity_order@.push(k));
                    if j != k {
                        assert(self@.entity_order.contains(j) <==> old(self)@.entity_order.contains(j)) by {
                            if old(self)@.entity_order.contains(j) {
                                let idx = choose|idx: int| 0 <= idx < old(self)@.entity_order.len() && old(self)@.entity_order[idx] == j;
                                assert(self@.entity_order[idx] == j);
                            } else if self@.entity_order.contains(j) {
                                let idx = choose|idx: int| 0 <= idx < self@.entity_order.len() && self@.entity_order[idx] == j;
                                assert(old(self)@.entity_order[idx] == j);
                            }
                        }
                    } else {
                        assert(self@.entity_order[self@.entity_order.len() - 1] == k);
                    }
                }
            }
        }
    }

    fn update_unit(&mut self, e: &EventUnitChanged)
        requires
            old(self).inv(),
        ensures
            final(self).inv(),
            final(self)@ == spec_update_unit(old(self)@, e@),
    {
        let k = e.unit_id.0;
        let mut fresh = match self.entities.remove(&k) {
            Some(u) => u,
            None => {
                proof {
                    assert(self.entities@ =~= old(self).entities@);
                    assert(self@ =~~= spec_update_unit(old(self)@, e@));
                }
                return;
            },
        };
        fresh.reaction = e.reaction;
        self.entities.insert(k, fresh);
        proof {
            assert(unit_map_view(self.entities@) =~= spec_update_unit(old(self)@, e@).entities);
            assert(self@ =~~= spec_update_unit(old(self)@, e@));
        }
    }

    fn update_unit_state(&mut self, us: &UnitState)
        requires
            old(self).inv(),
        ensures
            final(self).inv(),
            final(self)@ == spec_upd_unit_state(old(self)@, *us),
    {
        let k = us.unit_id.0;
        let mut fresh = match self.entities.remove(&k) {
            Some(u) => u,
            None => {
                proof {
                    assert(self.entities@ =~= old(self).entities@);
                    assert(self@ =~~= spec_upd_unit_state(old(self)@, *us));
                }
                return;
            },
        };
        fresh.state = *us;
        self.entities.insert(k, fresh);
        proof {
            assert(unit_map_view(self.entities@) =~= spec_upd_unit_state(old(self)@, *us).entities);
            assert(self@ =~~= spec_upd_unit_state(old(self)@, *us));
        }
    }

    fn update_player(&mut self, e: &EventPlayerInfo)
        requires
            old(self).inv(),
        ensures
            final(self).inv(),
            final(self)@ == spec_update_player(old(self)@, e@),
    {
        let ghost m0 = self@;
        let k = e.unit_id.0;
        let mut fresh = match self.entities.remove(&k) {
            Some(u) => u,
            None => {
                proof {
                    assert(self.entities@ =~= old(self).entities@);
                    assert(self@ =~~= spec_update_player(m0, e@));
                }
                return;
            },
        };
        let ghost eq0 = fresh.equipment@;
        let ghost u0 = fresh@;
        let ghost items = e.equipment_info@;
        proof {
            assert(items.skip(0) =~= items);
        }
        let mut i: usize = 0;
        while i < e.equipment_info.len()
            invariant
                i <= items.len(),
                items == e.equipment_info@,
                fresh@ == (UnitModel { equipment: fresh.equipment@, ..u0 }),
                spec_equip_fold(eq0, items) == spec_equip_fold(fresh.equipment@, items.skip(i as int)),
            decreases items.len() - i,
        {
            let item = e.equipment_info[i];
            proof {
                assert(items.skip(i as int)[0] == items[i as int]);
                assert(items.skip(i as int).skip(1) =~= items.skip(i as int + 1));
            }
            fresh.equipment.insert(item.slot.code(), item);
            i = i + 1;
        }
        proof {
            assert(items.skip(items.len() as int).len() == 0);
        }
        self.entities.insert(k, fresh);
        proof {
            assert(spec_equip_fold(fresh.equipment@, items.skip(items.len() as int)) == fresh.equipment@);
            assert(fresh.equipment@ == spec_equip_fold(eq0, items));
            assert(fresh@ =~~= UnitModel {
                equipment: spec_equip_fold(m0.entities[k].equipment, e@.equipment_info),
                ..m0.entities[k]
            });
            assert(unit_map_view(self.entities@) =~~= spec_update_player(m0, e@).entities);
            assert(self@ =~~= spec_update_player(m0, e@));
        }
    }

    fn remove_unit_by_id(&mut self, u: u64)
        requires
            old(self).inv(),
        ensures
            final(self).inv(),
            final(self)@ == spec_remove_unit(old(self)@, u),
    {
        let ghost m0 = self@;
        self.entities.remove(&u);
        let mut order: Vec<u64> = Vec::new();
        let ghost orig = self.entity_order@;
        let mut i: usize = 0;
        while i < self.entity_order.len()
            invariant
                i <= orig.len(),
                orig == self.entity_order@,
                order@ == drop_key(orig.take(i as int), u),
            decreases orig.len() - i,
        {
            let k = self.entity_order[i];
            proof {
                assert(orig.take(i as int + 1).drop_last() =~= orig.take(i as int));
                assert(orig.take(i as int + 1).last() == orig[i as int]);
                reveal(Seq::filter);
            }
            if k != u {
                order.push(k);
            }
            i = i + 1;
        }
        proof {
            assert(orig.take(orig.len() as int) =~= orig);
        }
        self.entity_order = order;
        let removed = self.effects.received_effects.remove(&u);
        let ghost r = if removed is Some {
            removed->0@
        } else {
            Seq::<TrackId>::empty()
        };
        let ghost em0 = EffectMapModel { received: m0.effects.received.remove(u), ..m0.effects };
        proof {
            assert(map_vec_view(self.effects.received_effects@) =~= em0.received);
            assert(self.effects@ =~~= em0);
        }
        let ghost ents1 = self.entities@;
        let ghost ord1 = self.entity_order@;
        let ghost ai1 = self.ability_info@;
        let ghost ei1 = self.effect_info@;
        let ghost ic1 = self.in_combat;
        match removed {
            Some(tracks) => {
                proof {
                    assert(r.skip(0) =~= r);
                }
                let mut j: usize = 0;
                while j < tracks.len()
                    invariant
                        j <= r.len(),
                        r == tracks@,
                        self.entities@ == ents1,
                        self.entity_order@ == ord1,
                        self.ability_info@ == ai1,
                        self.effect_info@ == ei1,
                        self.in_combat == ic1,
                        spec_remove_tracks(em0, r) == spec_remove_tracks(self.effects@, r.skip(j as int)),
                    decreases r.len() - j,
                {
                    proof {
                        assert(r.skip(j as int)[0] == r[j as int]);
                        assert(r.skip(j as int).skip(1) =~= r.skip(j as int + 1));
                    }
                    let t = tracks[j];
                    self.effects.remove(&t);
                    j = j + 1;
                }
                proof {
                    assert(r.skip(r.len() as int).len() == 0);
                }
            },
            None => {
                proof {
                    assert(spec_remove_tracks(em0, r) == em0);
                }
            },
        }
        proof {
            let spec_r = if m0.effects.received.dom().contains(u) {
                m0.effects.received[u]
            } else {
                Seq::<TrackId>::empty()
            };
            assert(r == spec_r);
            assert(spec_remove_tracks(self.effects@, r.skip(r.len() as int)) == self.effects@);
            assert(self.effects@ == spec_remove_tracks(em0, r));
            assert(self@.entities =~~= spec_remove_unit(m0, u).entities);
            assert(self@.entity_order =~= spec_remove_unit(m0, u).entity_order);
            assert(self@ =~~= spec_remove_unit(m0, u));
            assert forall|j: u64| self@.entities.dom().contains(j) <==> self@.entity_order.contains(j) by {
                lemma_filter_membership(orig, u, j);
                assert(self@.entity_order == drop_key(orig, u));
                assert(m0.entities.dom().contains(j) <==> orig.contains(j));
            }
        }
    }

    fn remove_enemy_units(&mut self)
        requires
            old(self).inv(),
        ensures
            final(self).inv(),
            final(self)@ == spec_remove_units(old(self)@, spec_hostiles(old(self)@)),
    {
        let mut hostile: Vec<u64> = Vec::new();
        let ghost orig = self.entity_order@;
        let ghost m0 = self@;
        let mut i: usize = 0;
        while i < self.entity_order.len()
            invariant
                self.inv(),
                self@ == m0,
                i <= orig.len(),
                orig == self.entity_order@,
                hostile@ == orig.take(i as int).filter(|k: u64| m0.entities.dom().contains(k)
                    && m0.entities[k].monster_id.0 != 0),
            decreases orig.len() - i,
        {
            let k = self.entity_order[i];
            proof {
                assert(orig.take(i as int + 1).drop_last() =~= orig.take(i as int));
                assert(orig.take(i as int + 1).last() == orig[i as int]);
                reveal(Seq::filter);
            }
            let is_hostile = match self.entities.get(&k) {
                Some(unit) => unit.monster_id.0 != 0,
                None => false,
            };
            if is_hostile {
                hostile.push(k);
            }
            i = i + 1;
        }
        proof {
            assert(orig.take(orig.len() as int) =~= orig);
            assert(hostile@ == spec_hostiles(m0));
        }
        let ghost ids = hostile@;
        proof {
            assert(ids.skip(0) =~= ids);
        }
        let mut j: usize = 0;
        while j < hostile.len()
            invariant
                self.inv(),
                j <= ids.len(),
                ids == hostile@,
                spec_remove_units(m0, ids) == spec_remove_units(self@, ids.skip(j as int)),
            decreases ids.len() - j,
        {
            proof {
                assert(ids.skip(j as int)[0] == ids[j as int]);
                assert(ids.skip(j as int).skip(1) =~= ids.skip(j as int + 1));
            }
            self.remove_unit_by_id(hostile[j]);
            j = j + 1;
        }
        proof {
            assert(ids.skip(ids.len() as int).len() == 0);
        }
    }
}

/// Membership in a list with one value struck out.
proof fn lemma_filter_membership(s: Seq<u64>, u: u64, j: u64)
    ensures
        drop_key(s, u).contains(j) <==> (s.contains(j) && j != u),
    decreases s.len(),
{
    reveal(Seq::filter);
    if s.len() == 0 {
    } else {
        lemma_filter_membership(s.drop_last(), u, j);
        let f = drop_key(s, u);
        let fd = drop_key(s.drop_last(), u);
        if s.last() != u {
            assert(f == fd.push(s.last()));
            if fd.contains(j) {
                let idx = choose|idx: int| 0 <= idx < fd.len() && fd[idx] == j;
                assert(f[idx] == j);
            }
            if s.contains(j) && j != u {
                let idx = choose|idx: int| 0 <= idx < s.len() && s[idx] == j;
                if idx < s.len() - 1 {
                    assert(s.drop_last()[idx] == j);
                    assert(fd.contains(j));
                    let i2 = choose|i2: int| 0 <= i2 < fd.len() && fd[i2] == j;
                    assert(f[i2] == j);
                } else {
                    assert(f[f.len() - 1] == j);
                }
            }
            if f.contains(j) {
                let idx = choose|idx: int| 0 <= idx < f.len() && f[idx] == j;
                if idx < f.len() - 1 {
                    assert(fd[idx] == j);
                } else {
                }
                assert(s.contains(j) && j != u) by {
                    if idx == f.len() - 1 {
                        assert(j == s.last());
                        assert(s[s.len() - 1] == j);
                    } else {
                        assert(fd.contains(j));
                        let i3 = choose|i3: int| 0 <= i3 < s.drop_last().len() && s.drop_last()[i3] == j;
                        assert(s[i3] == j);
                    }
                }
            }
        } else {
            assert(f == fd);
            if s.contains(j) && j != u {
                let idx = choose|idx: int| 0 <= idx < s.len() && s[idx] == j;
                assert(idx < s.len() - 1);
                assert(s.drop_last()[idx] == j);
            }
            if fd.contains(j) {
                let idx = choose|idx: int| 0 <= idx < fd.len() && fd[idx] == j;
                assert(fd[idx] == j);
            }
            assert(s.contains(j) && j != u ==> fd.contains(j));
            if f.contains(j) {
                assert(s.drop_last().contains(j) && j != u);
                let i4 = choose|i4: int| 0 <= i4 < s.drop_last().len() && s.drop_last()[i4] == j;
                assert(s[i4] == j);
            }
        }
    }
}

} // verus!
