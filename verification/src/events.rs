use vstd::prelude::*;

#[allow(unused_imports)]
use crate::action_result::{ActionResult, parse_action_result, spec_parse_action_result};
#[allow(unused_imports)]
use crate::decimal::Decimal;
#[allow(unused_imports)]
use crate::enums::{DamageType, DisplayBehaviour, DungeonDifficulty, EffectChangeType, EffectType,
    EndCastReason, EventTag, StatusEffectType, UnitReactionType, UnitType,
    parse_damage_type, parse_display_behaviour, parse_dungeon_difficulty, parse_effect_change_type,
    parse_effect_type, parse_end_cast_reason, parse_event_tag, parse_status_effect_type,
    parse_unit_reaction_type, parse_unit_type,
    spec_parse_damage_type, spec_parse_display_behaviour, spec_parse_dungeon_difficulty,
    spec_parse_effect_change_type, spec_parse_effect_type, spec_parse_end_cast_reason,
    spec_parse_event_tag, spec_parse_status_effect_type, spec_parse_unit_reaction_type,
    spec_parse_unit_type};
#[allow(unused_imports)]
use crate::error::{Error, SerializeError};
#[allow(unused_imports)]
use crate::fields::{append_bool, append_str, parse_bool, parse_opt_uint, parse_string,
    spec_dump_bool, spec_parse_bool, spec_parse_opt_uint, spec_parse_str, str_wf,
    lemma_parse_bool_roundtrip, lemma_parse_opt_uint_some, lemma_parse_str_roundtrip};
#[allow(unused_imports)]
use crate::ids::{AbilityId, Attribute, ClassId, EsoDuration, EsoSystemTime, Id, Level, MonsterId,
    PowerType, RaceId, SetId, StackCount, TrackId, UnitId};
#[allow(unused_imports)]
use crate::lists::{append_equipment_list, append_uint_list, append_uint_list_ability_id,
    map_ability_id, parse_equipment_list, parse_list_uint, spec_dump_equipment_list,
    spec_dump_uint_list, spec_parse_equipment_list, spec_parse_list_uint,
    lemma_parse_equipment_list_roundtrip, lemma_parse_list_uint_roundtrip};
#[allow(unused_imports)]
use crate::reader::{EsoLogReaderLine, spec_next_token};
#[allow(unused_imports)]
use crate::scalars::{append_uint, chop, lemma_comma_chop, lemma_parse_uint_roundtrip,
    lemma_regroup_comma_first, lemma_regroup_head, lemma_regroup_last, lemma_shift_rest, sep_ok,
    spec_dump_uint, spec_parse_uint};
#[allow(unused_imports)]
use crate::unit_state::{CurrentMaxAttribute, EquipmentInfo, Pos, TargetUnitState, UnitState,
    append_pair, equipment_info_wf, parse_pair, parse_target, parse_unit_state, pos_wf,
    spec_dump_pair, spec_dump_target, spec_dump_unit_state, spec_parse_pair, spec_parse_target,
    spec_parse_unit_state, target_wf, unit_state_wf,
    lemma_parse_pair_roundtrip, lemma_parse_target_roundtrip, lemma_parse_unit_state_roundtrip};

verus! {

/// Marker carried by `BEGIN_COMBAT`: combat started.
#[derive(Debug, Clone, Copy, PartialEq, Eq, Structural)]
pub struct EventBeginCombat {
}

/// Marker carried by `END_COMBAT`: combat ended.
#[derive(Debug, Clone, Copy, PartialEq, Eq, Structural)]
pub struct EventEndCombat {
}

/// Marker carried by `END_LOG`: the log closed.
#[derive(Debug, Clone, Copy, PartialEq, Eq, Structural)]
pub struct EventEndLog {
}

/// A named ability became known: identifier, name, icon, interrupt flags.
#[derive(Debug, Clone)]
pub struct EventAbilityInfo {
    pub ability_id: AbilityId,
    pub name: String,
    pub icon_path: String,
    pub interruptible: bool,
    pub blockable: bool,
}

/// Mathematical image of [`EventAbilityInfo`].
#[verifier::ext_equal]
pub ghost struct EventAbilityInfoModel {
    pub ability_id: AbilityId,
    pub name: Seq<char>,
    pub icon_path: Seq<char>,
    pub interruptible: bool,
    pub blockable: bool,
}

impl View for EventAbilityInfo {
    type V = EventAbilityInfoModel;

    open spec fn view(&self) -> EventAbilityInfoModel {
        EventAbilityInfoModel {
            ability_id: self.ability_id,
            name: self.name@,
            icon_path: self.icon_path@,
            interruptible: self.interruptible,
            blockable: self.blockable,
        }
    }
}

impl EventAbilityInfo {
    pub fn ability_id(&self) -> (r: &AbilityId)
        ensures
            r == &self.ability_id,
    {
        &self.ability_id
    }

    pub fn name(&self) -> (r: &String)
        ensures
            r == &self.name,
    {
        &self.name
    }

    pub fn icon_path(&self) -> (r: &String)
        ensures
            r == &self.icon_path,
    {
        &self.icon_path
    }

    pub fn interruptible(&self) -> (r: &bool)
        ensures
            r == &self.interruptible,
    {
        &self.interruptible
    }

    pub fn blockable(&self) -> (r: &bool)
        ensures
            r == &self.blockable,
    {
        &self.blockable
    }

}

/// The record round-trips through the wire grammar.
pub open spec fn event_ability_info_wf(m: EventAbilityInfoModel) -> bool {
    &&& str_wf(m.name)
    &&& str_wf(m.icon_path)
}

/// Wire text of the record, fields comma separated.
pub open spec fn spec_dump_event_ability_info(m: EventAbilityInfoModel) -> Seq<char> {
    spec_dump_uint(m.ability_id.0 as nat) + (seq![','] + (m.name + (seq![','] + (m.icon_path + (seq![','] + (spec_dump_bool(m.interruptible) + (seq![','] + (spec_dump_bool(m.blockable)))))))))
}

/// Parses the record's fields in declaration order.
pub open spec fn spec_parse_event_ability_info(s: Seq<char>) -> Result<(EventAbilityInfoModel, Seq<char>), Error> {
    match spec_parse_uint(s, u64::MAX as nat) {
        Err(e) => Err(e),
        Ok((v_ability_id, s1)) => {
            match spec_parse_str(s1) {
                Err(e) => Err(e),
                Ok((v_name, s2)) => {
                    match spec_parse_str(s2) {
                        Err(e) => Err(e),
                        Ok((v_icon_path, s3)) => {
                            match spec_parse_bool(s3) {
                                Err(e) => Err(e),
                                Ok((v_interruptible, s4)) => {
                                    match spec_parse_bool(s4) {
                                        Err(e) => Err(e),
                                        Ok((v_blockable, s5)) => {
                                            let m = EventAbilityInfoModel {
                                                ability_id: AbilityId(v_ability_id as u64),
                                                name: v_name,
                                                icon_path: v_icon_path,
                                                interruptible: v_interruptible,
                                                blockable: v_blockable,
                                            };
                                            Ok((m, s5))
                                        },
                                    }
                                },
                            }
                        },
                    }
                },
            }
        },
    }
}

/// Reads one `EventAbilityInfo` from the line.
pub fn parse_event_ability_info(r: &mut EsoLogReaderLine) -> (res: Result<EventAbilityInfo, Error>)
    requires
        old(r).wf(),
    ensures
        final(r).wf(),
        match spec_parse_event_ability_info(old(r).remaining()) {
            Ok((m, rest)) => res is Ok && res->Ok_0@ == m && final(r).remaining() == rest,
            Err(e) => res == Err::<EventAbilityInfo, Error>(e),
        },
{
    let ability_id = AbilityId(match r.read_uint(u64::MAX) { Ok(v) => v, Err(e) => { return Err(e); } });
    let name = match parse_string(r) { Ok(v) => v, Err(e) => { return Err(e); } };
    let icon_path = match parse_string(r) { Ok(v) => v, Err(e) => { return Err(e); } };
    let interruptible = match parse_bool(r) { Ok(v) => v, Err(e) => { return Err(e); } };
    let blockable = match parse_bool(r) { Ok(v) => v, Err(e) => { return Err(e); } };
    Ok(EventAbilityInfo {
        ability_id,
        name,
        icon_path,
        interruptible,
        blockable,
    })
}

impl EventAbilityInfo {
    /// Appends this record's wire text.
    #[verifier::rlimit(100)]
    pub fn append_to(&self, out: &mut String)
        ensures
            final(out)@ == old(out)@ + spec_dump_event_ability_info(self@),
    {
        proof {
            reveal_strlit(",");
            assert(","@ =~= seq![',']);
        }
        let ghost b0 = out@;
        append_uint(out, self.ability_id.0);
        let ghost b1 = out@;
        out.append(",");
        append_str(out, self.name.as_str());
        let ghost b2 = out@;
        out.append(",");
        append_str(out, self.icon_path.as_str());
        let ghost b3 = out@;
        out.append(",");
        append_bool(out, self.interruptible);
        let ghost b4 = out@;
        out.append(",");
        append_bool(out, self.blockable);
        let ghost b5 = out@;
        proof {
            assert(b1 == b0 + (spec_dump_uint(self@.ability_id.0 as nat)));
            assert(b2 == (b1 + seq![',']) + (self@.name));
            assert(b3 == (b2 + seq![',']) + (self@.icon_path));
            assert(b4 == (b3 + seq![',']) + (spec_dump_bool(self@.interruptible)));
            assert(b5 == (b4 + seq![',']) + (spec_dump_bool(self@.blockable)));
            assert(out@ == b5);
            let u4 = seq![','] + (spec_dump_bool(self@.blockable));
            lemma_regroup_last(b4, spec_dump_bool(self@.blockable), out@);
            assert(out@ == b4 + u4);
            let u3 = seq![','] + ((spec_dump_bool(self@.interruptible)) + u4);
            lemma_regroup_comma_first(b3, spec_dump_bool(self@.interruptible), b4, u4, out@);
            assert(out@ == b3 + u3);
            let u2 = seq![','] + ((self@.icon_path) + u3);
            lemma_regroup_comma_first(b2, self@.icon_path, b3, u3, out@);
            assert(out@ == b2 + u2);
            let u1 = seq![','] + ((self@.name) + u2);
            lemma_regroup_comma_first(b1, self@.name, b2, u2, out@);
            assert(out@ == b1 + u1);
            let u0 = (spec_dump_uint(self@.ability_id.0 as nat)) + u1;
            lemma_regroup_head(b0, spec_dump_uint(self@.ability_id.0 as nat), b1, u1, out@);
            assert(out@ == b0 + u0);
            assert(out@ == b0 + spec_dump_event_ability_info(self@));
        }
    }
}

/// Parsing the dumped record yields the record.
#[verifier::rlimit(100)]
pub proof fn lemma_parse_event_ability_info_roundtrip(m: EventAbilityInfoModel)
    requires
        event_ability_info_wf(m),
    ensures
        spec_parse_event_ability_info(spec_dump_event_ability_info(m)) == Ok::<(EventAbilityInfoModel, Seq<char>), Error>((m, Seq::<char>::empty())),
{
    let rest = Seq::<char>::empty();
    assert(spec_dump_event_ability_info(m) =~= spec_dump_event_ability_info(m) + rest);
    let s4 = spec_dump_bool(m.blockable) + rest;
    let s3 = spec_dump_bool(m.interruptible) + (seq![','] + s4);
    let s2 = m.icon_path + (seq![','] + s3);
    let s1 = m.name + (seq![','] + s2);
    let s0 = spec_dump_uint(m.ability_id.0 as nat) + (seq![','] + s1);
    lemma_comma_chop(s1);
    lemma_parse_uint_roundtrip(m.ability_id.0 as nat, u64::MAX as nat, seq![','] + s1);
    lemma_comma_chop(s2);
    lemma_parse_str_roundtrip(m.name, seq![','] + s2);
    lemma_comma_chop(s3);
    lemma_parse_str_roundtrip(m.icon_path, seq![','] + s3);
    lemma_comma_chop(s4);
    lemma_parse_bool_roundtrip(m.interruptible, seq![','] + s4);
    lemma_parse_bool_roundtrip(m.blockable, rest);
    let v4 = spec_dump_bool(m.blockable);
    assert(v4 + rest == s4);
    let v3 = spec_dump_bool(m.interruptible) + (seq![','] + v4);
    lemma_shift_rest(spec_dump_bool(m.interruptible), v4, s4, rest);
    assert(v3 + rest == s3);
    let v2 = m.icon_path + (seq![','] + v3);
    lemma_shift_rest(m.icon_path, v3, s3, rest);
    assert(v2 + rest == s2);
    let v1 = m.name + (seq![','] + v2);
    lemma_shift_rest(m.name, v2, s2, rest);
    assert(v1 + rest == s1);
    let v0 = spec_dump_uint(m.ability_id.0 as nat) + (seq![','] + v1);
    lemma_shift_rest(spec_dump_uint(m.ability_id.0 as nat), v1, s1, rest);
    assert(v0 + rest == s0);
    assert(spec_dump_event_ability_info(m) =~= v0);
    assert(spec_dump_event_ability_info(m) + rest == s0);
}

/// A cast started.
#[derive(Debug, Clone, Copy, PartialEq, Eq, Structural)]
pub struct EventBeginCast {
    pub duration: EsoDuration,
    pub channeled: bool,
    pub cast_id: TrackId,
    pub ability_id: AbilityId,
    pub source_unit: UnitState,
    pub target_unit: TargetUnitState,
}

impl EventBeginCast {
    pub fn duration(&self) -> (r: &EsoDuration)
        ensures
            r == &self.duration,
    {
        &self.duration
    }

    pub fn channeled(&self) -> (r: &bool)
        ensures
            r == &self.channeled,
    {
        &self.channeled
    }

    pub fn cast_id(&self) -> (r: &TrackId)
        ensures
            r == &self.cast_id,
    {
        &self.cast_id
    }

    pub fn ability_id(&self) -> (r: &AbilityId)
        ensures
            r == &self.ability_id,
    {
        &self.ability_id
    }

    pub fn source_unit(&self) -> (r: &UnitState)
        ensures
            r == &self.source_unit,
    {
        &self.source_unit
    }

    pub fn target_unit(&self) -> (r: &TargetUnitState)
        ensures
            r == &self.target_unit,
    {
        &self.target_unit
    }

}

/// The record round-trips through the wire grammar.
pub open spec fn event_begin_cast_wf(m: EventBeginCast) -> bool {
    &&& unit_state_wf(m.source_unit)
    &&& target_wf(m.target_unit)
}

/// Wire text of the record, fields comma separated.
pub open spec fn spec_dump_event_begin_cast(m: EventBeginCast) -> Seq<char> {
    spec_dump_uint(m.duration.0 as nat) + (seq![','] + (spec_dump_bool(m.channeled) + (seq![','] + (spec_dump_uint(m.cast_id.0 as nat) + (seq![','] + (spec_dump_uint(m.ability_id.0 as nat) + (seq![','] + (spec_dump_unit_state(m.source_unit) + (seq![','] + (spec_dump_target(m.target_unit)))))))))))
}

/// Parses the record's fields in declaration order.
pub open spec fn spec_parse_event_begin_cast(s: Seq<char>) -> Result<(EventBeginCast, Seq<char>), Error> {
    match spec_parse_uint(s, u64::MAX as nat) {
        Err(e) => Err(e),
        Ok((v_duration, s1)) => {
            match spec_parse_bool(s1) {
                Err(e) => Err(e),
                Ok((v_channeled, s2)) => {
                    match spec_parse_uint(s2, u64::MAX as nat) {
                        Err(e) => Err(e),
                        Ok((v_cast_id, s3)) => {
                            match spec_parse_uint(s3, u64::MAX as nat) {
                                Err(e) => Err(e),
                                Ok((v_ability_id, s4)) => {
                                    match spec_parse_unit_state(s4) {
                                        Err(e) => Err(e),
                                        Ok((v_source_unit, s5)) => {
                                            match spec_parse_target(s5) {
                                                Err(e) => Err(e),
                                                Ok((v_target_unit, s6)) => {
                                                    let m = EventBeginCast {
                                                        duration: EsoDuration(v_duration as u64),
                                                        channeled: v_channeled,
                                                        cast_id: TrackId(v_cast_id as u64),
                                                        ability_id: AbilityId(v_ability_id as u64),
                                                        source_unit: v_source_unit,
                                                        target_unit: v_target_unit,
                                                    };
                                                    Ok((m, s6))
                                                },
                                            }
                                        },
                                    }
                                },
                            }
                        },
                    }
                },
            }
        },
    }
}

/// Reads one `EventBeginCast` from the line.
pub fn parse_event_begin_cast(r: &mut EsoLogReaderLine) -> (res: Result<EventBeginCast, Error>)
    requires
        old(r).wf(),
    ensures
        final(r).wf(),
        match spec_parse_event_begin_cast(old(r).remaining()) {
            Ok((m, rest)) => res == Ok::<EventBeginCast, Error>(m) && final(r).remaining() == rest,
            Err(e) => res == Err::<EventBeginCast, Error>(e),
        },
{
    let duration = EsoDuration(match r.read_uint(u64::MAX) { Ok(v) => v, Err(e) => { return Err(e); } });
    let channeled = match parse_bool(r) { Ok(v) => v, Err(e) => { return Err(e); } };
    let cast_id = TrackId(match r.read_uint(u64::MAX) { Ok(v) => v, Err(e) => { return Err(e); } });
    let ability_id = AbilityId(match r.read_uint(u64::MAX) { Ok(v) => v, Err(e) => { return Err(e); } });
    let source_unit = match parse_unit_state(r) { Ok(v) => v, Err(e) => { return Err(e); } };
    let target_unit = match parse_target(r) { Ok(v) => v, Err(e) => { return Err(e); } };
    Ok(EventBeginCast {
        duration,
        channeled,
        cast_id,
        ability_id,
        source_unit,
        target_unit,
    })
}

impl EventBeginCast {
    /// Appends this record's wire text.
    #[verifier::rlimit(100)]
    pub fn append_to(&self, out: &mut String)
        ensures
            final(out)@ == old(out)@ + spec_dump_event_begin_cast(*self),
    {
        proof {
            reveal_strlit(",");
            assert(","@ =~= seq![',']);
        }
        let ghost b0 = out@;
        append_uint(out, self.duration.0);
        let ghost b1 = out@;
        out.append(",");
        append_bool(out, self.channeled);
        let ghost b2 = out@;
        out.append(",");
        append_uint(out, self.cast_id.0);
        let ghost b3 = out@;
        out.append(",");
        append_uint(out, self.ability_id.0);
        let ghost b4 = out@;
        out.append(",");
        self.source_unit.append_to(out);
        let ghost b5 = out@;
        out.append(",");
        self.target_unit.append_to(out);
        let ghost b6 = out@;
        proof {
            assert(b1 == b0 + (spec_dump_uint((*self).duration.0 as nat)));
            assert(b2 == (b1 + seq![',']) + (spec_dump_bool((*self).channeled)));
            assert(b3 == (b2 + seq![',']) + (spec_dump_uint((*self).cast_id.0 as nat)));
            assert(b4 == (b3 + seq![',']) + (spec_dump_uint((*self).ability_id.0 as nat)));
            assert(b5 == (b4 + seq![',']) + (spec_dump_unit_state((*self).source_unit)));
            assert(b6 == (b5 + seq![',']) + (spec_dump_target((*self).target_unit)));
            assert(out@ == b6);
            let u5 = seq![','] + (spec_dump_target((*self).target_unit));
            lemma_regroup_last(b5, spec_dump_target((*self).target_unit), out@);
            assert(out@ == b5 + u5);
            let u4 = seq![','] + ((spec_dump_unit_state((*self).source_unit)) + u5);
            lemma_regroup_comma_first(b4, spec_dump_unit_state((*self).source_unit), b5, u5, out@);
            assert(out@ == b4 + u4);
            let u3 = seq![','] + ((spec_dump_uint((*self).ability_id.0 as nat)) + u4);
            lemma_regroup_comma_first(b3, spec_dump_uint((*self).ability_id.0 as nat), b4, u4, out@);
            assert(out@ == b3 + u3);
            let u2 = seq![','] + ((spec_dump_uint((*self).cast_id.0 as nat)) + u3);
            lemma_regroup_comma_first(b2, spec_dump_uint((*self).cast_id.0 as nat), b3, u3, out@);
            assert(out@ == b2 + u2);
            let u1 = seq![','] + ((spec_dump_bool((*self).channeled)) + u2);
            lemma_regroup_comma_first(b1, spec_dump_bool((*self).channeled), b2, u2, out@);
            assert(out@ == b1 + u1);
            let u0 = (spec_dump_uint((*self).duration.0 as nat)) + u1;
            lemma_regroup_head(b0, spec_dump_uint((*self).duration.0 as nat), b1, u1, out@);
            assert(out@ == b0 + u0);
            assert(out@ == b0 + spec_dump_event_begin_cast((*self)));
        }
    }
}

/// Parsing the dumped record yields the record.
#[verifier::rlimit(100)]
pub proof fn lemma_parse_event_begin_cast_roundtrip(m: EventBeginCast)
    requires
        event_begin_cast_wf(m),
    ensures
        spec_parse_event_begin_cast(spec_dump_event_begin_cast(m)) == Ok::<(EventBeginCast, Seq<char>), Error>((m, Seq::<char>::empty())),
{
    let rest = Seq::<char>::empty();
    assert(spec_dump_event_begin_cast(m) =~= spec_dump_event_begin_cast(m) + rest);
    let s5 = spec_dump_target(m.target_unit) + rest;
    let s4 = spec_dump_unit_state(m.source_unit) + (seq![','] + s5);
    let s3 = spec_dump_uint(m.ability_id.0 as nat) + (seq![','] + s4);
    let s2 = spec_dump_uint(m.cast_id.0 as nat) + (seq![','] + s3);
    let s1 = spec_dump_bool(m.channeled) + (seq![','] + s2);
    let s0 = spec_dump_uint(m.duration.0 as nat) + (seq![','] + s1);
    lemma_comma_chop(s1);
    lemma_parse_uint_roundtrip(m.duration.0 as nat, u64::MAX as nat, seq![','] + s1);
    lemma_comma_chop(s2);
    lemma_parse_bool_roundtrip(m.channeled, seq![','] + s2);
    lemma_comma_chop(s3);
    lemma_parse_uint_roundtrip(m.cast_id.0 as nat, u64::MAX as nat, seq![','] + s3);
    lemma_comma_chop(s4);
    lemma_parse_uint_roundtrip(m.ability_id.0 as nat, u64::MAX as nat, seq![','] + s4);
    lemma_comma_chop(s5);
    lemma_parse_unit_state_roundtrip(m.source_unit, seq![','] + s5);
    lemma_parse_target_roundtrip(m.target_unit, rest);
    let v5 = spec_dump_target(m.target_unit);
    assert(v5 + rest == s5);
    let v4 = spec_dump_unit_state(m.source_unit) + (seq![','] + v5);
    lemma_shift_rest(spec_dump_unit_state(m.source_unit), v5, s5, rest);
    assert(v4 + rest == s4);
    let v3 = spec_dump_uint(m.ability_id.0 as nat) + (seq![','] + v4);
    lemma_shift_rest(spec_dump_uint(m.ability_id.0 as nat), v4, s4, rest);
    assert(v3 + rest == s3);
    let v2 = spec_dump_uint(m.cast_id.0 as nat) + (seq![','] + v3);
    lemma_shift_rest(spec_dump_uint(m.cast_id.0 as nat), v3, s3, rest);
    assert(v2 + rest == s2);
    let v1 = spec_dump_bool(m.channeled) + (seq![','] + v2);
    lemma_shift_rest(spec_dump_bool(m.channeled), v2, s2, rest);
    assert(v1 + rest == s1);
    let v0 = spec_dump_uint(m.duration.0 as nat) + (seq![','] + v1);
    lemma_shift_rest(spec_dump_uint(m.duration.0 as nat), v1, s1, rest);
    assert(v0 + rest == s0);
    assert(spec_dump_event_begin_cast(m) =~= v0);
    assert(spec_dump_event_begin_cast(m) + rest == s0);
}

/// A new log began; all prior state is stale.
#[derive(Debug, Clone)]
pub struct EventBeginLog {
    pub time: EsoSystemTime,
    pub log_version: String,
    pub realm_name: String,
    pub language: String,
    pub game_version: String,
}

/// Mathematical image of [`EventBeginLog`].
#[verifier::ext_equal]
pub ghost struct EventBeginLogModel {
    pub time: EsoSystemTime,
    pub log_version: Seq<char>,
    pub realm_name: Seq<char>,
    pub language: Seq<char>,
    pub game_version: Seq<char>,
}

impl View for EventBeginLog {
    type V = EventBeginLogModel;

    open spec fn view(&self) -> EventBeginLogModel {
        EventBeginLogModel {
            time: self.time,
            log_version: self.log_version@,
            realm_name: self.realm_name@,
            language: self.language@,
            game_version: self.game_version@,
        }
    }
}

impl EventBeginLog {
    pub fn time(&self) -> (r: &EsoSystemTime)
        ensures
            r == &self.time,
    {
        &self.time
    }

    pub fn log_version(&self) -> (r: &String)
        ensures
            r == &self.log_version,
    {
        &self.log_version
    }

    pub fn realm_name(&self) -> (r: &String)
        ensures
            r == &self.realm_name,
    {
        &self.realm_name
    }

    pub fn language(&self) -> (r: &String)
        ensures
            r == &self.language,
    {
        &self.language
    }

    pub fn game_version(&self) -> (r: &String)
        ensures
            r == &self.game_version,
    {
        &self.game_version
    }

}

/// The record round-trips through the wire grammar.
pub open spec fn event_begin_log_wf(m: EventBeginLogModel) -> bool {
    &&& str_wf(m.log_version)
    &&& str_wf(m.realm_name)
    &&& str_wf(m.language)
    &&& str_wf(m.game_version)
}

/// Wire text of the record, fields comma separated.
pub open spec fn spec_dump_event_begin_log(m: EventBeginLogModel) -> Seq<char> {
    spec_dump_uint(m.time.0 as nat) + (seq![','] + (m.log_version + (seq![','] + (m.realm_name + (seq![','] + (m.language + (seq![','] + (m.game_version))))))))
}

/// Parses the record's fields in declaration order.
pub open spec fn spec_parse_event_begin_log(s: Seq<char>) -> Result<(EventBeginLogModel, Seq<char>), Error> {
    match spec_parse_uint(s, u64::MAX as nat) {
        Err(e) => Err(e),
        Ok((v_time, s1)) => {
            match spec_parse_str(s1) {
                Err(e) => Err(e),
                Ok((v_log_version, s2)) => {
                    match spec_parse_str(s2) {
                        Err(e) => Err(e),
                        Ok((v_realm_name, s3)) => {
                            match spec_parse_str(s3) {
                                Err(e) => Err(e),
                                Ok((v_language, s4)) => {
                                    match spec_parse_str(s4) {
                                        Err(e) => Err(e),
                                        Ok((v_game_version, s5)) => {
                                            let m = EventBeginLogModel {
                                                time: EsoSystemTime(v_time as u64),
                                                log_version: v_log_version,
                                                realm_name: v_realm_name,
                                                language: v_language,
                                                game_version: v_game_version,
                                            };
                                            Ok((m, s5))
                                        },
                                    }
                                },
                            }
                        },
                    }
                },
            }
        },
    }
}

/// Reads one `EventBeginLog` from the line.
pub fn parse_event_begin_log(r: &mut EsoLogReaderLine) -> (res: Result<EventBeginLog, Error>)
    requires
        old(r).wf(),
    ensures
        final(r).wf(),
        match spec_parse_event_begin_log(old(r).remaining()) {
            Ok((m, rest)) => res is Ok && res->Ok_0@ == m && final(r).remaining() == rest,
            Err(e) => res == Err::<EventBeginLog, Error>(e),
        },
{
    let time = EsoSystemTime(match r.read_uint(u64::MAX) { Ok(v) => v, Err(e) => { return Err(e); } });
    let log_version = match parse_string(r) { Ok(v) => v, Err(e) => { return Err(e); } };
    let realm_name = match parse_string(r) { Ok(v) => v, Err(e) => { return Err(e); } };
    let language = match parse_string(r) { Ok(v) => v, Err(e) => { return Err(e); } };
    let game_version = match parse_string(r) { Ok(v) => v, Err(e) => { return Err(e); } };
    Ok(EventBeginLog {
        time,
        log_version,
        realm_name,
        language,
        game_version,
    })
}

impl EventBeginLog {
    /// Appends this record's wire text.
    #[verifier::rlimit(100)]
    pub fn append_to(&self, out: &mut String)
        ensures
            final(out)@ == old(out)@ + spec_dump_event_begin_log(self@),
    {
        proof {
            reveal_strlit(",");
            assert(","@ =~= seq![',']);
        }
        let ghost b0 = out@;
        append_uint(out, self.time.0);
        let ghost b1 = out@;
        out.append(",");
        append_str(out, self.log_version.as_str());
        let ghost b2 = out@;
        out.append(",");
        append_str(out, self.realm_name.as_str());
        let ghost b3 = out@;
        out.append(",");
        append_str(out, self.language.as_str());
        let ghost b4 = out@;
        out.append(",");
        append_str(out, self.game_version.as_str());
        let ghost b5 = out@;
        proof {
            assert(b1 == b0 + (spec_dump_uint(self@.time.0 as nat)));
            assert(b2 == (b1 + seq![',']) + (self@.log_version));
            assert(b3 == (b2 + seq![',']) + (self@.realm_name));
            assert(b4 == (b3 + seq![',']) + (self@.language));
            assert(b5 == (b4 + seq![',']) + (self@.game_version));
            assert(out@ == b5);
            let u4 = seq![','] + (self@.game_version);
            lemma_regroup_last(b4, self@.game_version, out@);
            assert(out@ == b4 + u4);
            let u3 = seq![','] + ((self@.language) + u4);
            lemma_regroup_comma_first(b3, self@.language, b4, u4, out@);
            assert(out@ == b3 + u3);
            let u2 = seq![','] + ((self@.realm_name) + u3);
            lemma_regroup_comma_first(b2, self@.realm_name, b3, u3, out@);
            assert(out@ == b2 + u2);
            let u1 = seq![','] + ((self@.log_version) + u2);
            lemma_regroup_comma_first(b1, self@.log_version, b2, u2, out@);
            assert(out@ == b1 + u1);
            let u0 = (spec_dump_uint(self@.time.0 as nat)) + u1;
            lemma_regroup_head(b0, spec_dump_uint(self@.time.0 as nat), b1, u1, out@);
            assert(out@ == b0 + u0);
            assert(out@ == b0 + spec_dump_event_begin_log(self@));
        }
    }
}

/// Parsing the dumped record yields the record.
#[verifier::rlimit(100)]
pub proof fn lemma_parse_event_begin_log_roundtrip(m: EventBeginLogModel)
    requires
        event_begin_log_wf(m),
    ensures
        spec_parse_event_begin_log(spec_dump_event_begin_log(m)) == Ok::<(EventBeginLogModel, Seq<char>), Error>((m, Seq::<char>::empty())),
{
    let rest = Seq::<char>::empty();
    assert(spec_dump_event_begin_log(m) =~= spec_dump_event_begin_log(m) + rest);
    let s4 = m.game_version + rest;
    let s3 = m.language + (seq![','] + s4);
    let s2 = m.realm_name + (seq![','] + s3);
    let s1 = m.log_version + (seq![','] + s2);
    let s0 = spec_dump_uint(m.time.0 as nat) + (seq![','] + s1);
    lemma_comma_chop(s1);
    lemma_parse_uint_roundtrip(m.time.0 as nat, u64::MAX as nat, seq![','] + s1);
    lemma_comma_chop(s2);
    lemma_parse_str_roundtrip(m.log_version, seq![','] + s2);
    lemma_comma_chop(s3);
    lemma_parse_str_roundtrip(m.realm_name, seq![','] + s3);
    lemma_comma_chop(s4);
    lemma_parse_str_roundtrip(m.language, seq![','] + s4);
    lemma_parse_str_roundtrip(m.game_version, rest);
    let v4 = m.game_version;
    assert(v4 + rest == s4);
    let v3 = m.language + (seq![','] + v4);
    lemma_shift_rest(m.language, v4, s4, rest);
    assert(v3 + rest == s3);
    let v2 = m.realm_name + (seq![','] + v3);
    lemma_shift_rest(m.realm_name, v3, s3, rest);
    assert(v2 + rest == s2);
    let v1 = m.log_version + (seq![','] + v2);
    lemma_shift_rest(m.log_version, v2, s2, rest);
    assert(v1 + rest == s1);
    let v0 = spec_dump_uint(m.time.0 as nat) + (seq![','] + v1);
    lemma_shift_rest(spec_dump_uint(m.time.0 as nat), v1, s1, rest);
    assert(v0 + rest == s0);
    assert(spec_dump_event_begin_log(m) =~= v0);
    assert(spec_dump_event_begin_log(m) + rest == s0);
}

/// A trial started.
#[derive(Debug, Clone, Copy, PartialEq, Eq, Structural)]
pub struct EventBeginTrial {
    pub id: Id,
    pub start_time: EsoDuration,
}

impl EventBeginTrial {
    pub fn id(&self) -> (r: &Id)
        ensures
            r == &self.id,
    {
        &self.id
    }

    pub fn start_time(&self) -> (r: &EsoDuration)
        ensures
            r == &self.start_time,
    {
        &self.start_time
    }

}

/// The record round-trips through the wire grammar.
pub open spec fn event_begin_trial_wf(m: EventBeginTrial) -> bool {
    true
}

/// Wire text of the record, fields comma separated.
pub open spec fn spec_dump_event_begin_trial(m: EventBeginTrial) -> Seq<char> {
    spec_dump_uint(m.id.0 as nat) + (seq![','] + (spec_dump_uint(m.start_time.0 as nat)))
}

/// Parses the record's fields in declaration order.
pub open spec fn spec_parse_event_begin_trial(s: Seq<char>) -> Result<(EventBeginTrial, Seq<char>), Error> {
    match spec_parse_uint(s, u64::MAX as nat) {
        Err(e) => Err(e),
        Ok((v_id, s1)) => {
            match spec_parse_uint(s1, u64::MAX as nat) {
                Err(e) => Err(e),
                Ok((v_start_time, s2)) => {
                    let m = EventBeginTrial {
                        id: Id(v_id as u64),
                        start_time: EsoDuration(v_start_time as u64),
                    };
                    Ok((m, s2))
                },
            }
        },
    }
}

/// Reads one `EventBeginTrial` from the line.
pub fn parse_event_begin_trial(r: &mut EsoLogReaderLine) -> (res: Result<EventBeginTrial, Error>)
    requires
        old(r).wf(),
    ensures
        final(r).wf(),
        match spec_parse_event_begin_trial(old(r).remaining()) {
            Ok((m, rest)) => res == Ok::<EventBeginTrial, Error>(m) && final(r).remaining() == rest,
            Err(e) => res == Err::<EventBeginTrial, Error>(e),
        },
{
    let id = Id(match r.read_uint(u64::MAX) { Ok(v) => v, Err(e) => { return Err(e); } });
    let start_time = EsoDuration(match r.read_uint(u64::MAX) { Ok(v) => v, Err(e) => { return Err(e); } });
    Ok(EventBeginTrial {
        id,
        start_time,
    })
}

impl EventBeginTrial {
    /// Appends this record's wire text.
    #[verifier::rlimit(100)]
    pub fn append_to(&self, out: &mut String)
        ensures
            final(out)@ == old(out)@ + spec_dump_event_begin_trial(*self),
    {
        proof {
            reveal_strlit(",");
            assert(","@ =~= seq![',']);
        }
        let ghost b0 = out@;
        append_uint(out, self.id.0);
        let ghost b1 = out@;
        out.append(",");
        append_uint(out, self.start_time.0);
        let ghost b2 = out@;
        proof {
            assert(b1 == b0 + (spec_dump_uint((*self).id.0 as nat)));
            assert(b2 == (b1 + seq![',']) + (spec_dump_uint((*self).start_time.0 as nat)));
            assert(out@ == b2);
            let u1 = seq![','] + (spec_dump_uint((*self).start_time.0 as nat));
            lemma_regroup_last(b1, spec_dump_uint((*self).start_time.0 as nat), out@);
            assert(out@ == b1 + u1);
            let u0 = (spec_dump_uint((*self).id.0 as nat)) + u1;
            lemma_regroup_head(b0, spec_dump_uint((*self).id.0 as nat), b1, u1, out@);
            assert(out@ == b0 + u0);
            assert(out@ == b0 + spec_dump_event_begin_trial((*self)));
        }
    }
}

/// Parsing the dumped record yields the record.
#[verifier::rlimit(100)]
pub proof fn lemma_parse_event_begin_trial_roundtrip(m: EventBeginTrial)
    requires
        event_begin_trial_wf(m),
    ensures
        spec_parse_event_begin_trial(spec_dump_event_begin_trial(m)) == Ok::<(EventBeginTrial, Seq<char>), Error>((m, Seq::<char>::empty())),
{
    let rest = Seq::<char>::empty();
    assert(spec_dump_event_begin_trial(m) =~= spec_dump_event_begin_trial(m) + rest);
    let s1 = spec_dump_uint(m.start_time.0 as nat) + rest;
    let s0 = spec_dump_uint(m.id.0 as nat) + (seq![','] + s1);
    lemma_comma_chop(s1);
    lemma_parse_uint_roundtrip(m.id.0 as nat, u64::MAX as nat, seq![','] + s1);
    lemma_parse_uint_roundtrip(m.start_time.0 as nat, u64::MAX as nat, rest);
    let v1 = spec_dump_uint(m.start_time.0 as nat);
    assert(v1 + rest == s1);
    let v0 = spec_dump_uint(m.id.0 as nat) + (seq![','] + v1);
    lemma_shift_rest(spec_dump_uint(m.id.0 as nat), v1, s1, rest);
    assert(v0 + rest == s0);
    assert(spec_dump_event_begin_trial(m) =~= v0);
    assert(spec_dump_event_begin_trial(m) + rest == s0);
}

/// One blow, heal or other combat outcome.
#[derive(Debug, Clone, Copy, PartialEq, Eq, Structural)]
pub struct EventCombatEvent {
    pub action_result: ActionResult,
    pub damage_type: DamageType,
    pub power_type: PowerType,
    pub hit_value: Attribute,
    pub overflow: Attribute,
    pub cast_id: TrackId,
    pub ability_id: AbilityId,
    pub source_unit: UnitState,
    pub target_unit: TargetUnitState,
}

impl EventCombatEvent {
    pub fn action_result(&self) -> (r: &ActionResult)
        ensures
            r == &self.action_result,
    {
        &self.action_result
    }

    pub fn damage_type(&self) -> (r: &DamageType)
        ensures
            r == &self.damage_type,
    {
        &self.damage_type
    }

    pub fn power_type(&self) -> (r: &PowerType)
        ensures
            r == &self.power_type,
    {
        &self.power_type
    }

    pub fn hit_value(&self) -> (r: &Attribute)
        ensures
            r == &self.hit_value,
    {
        &self.hit_value
    }

    pub fn overflow(&self) -> (r: &Attribute)
        ensures
            r == &self.overflow,
    {
        &self.overflow
    }

    pub fn cast_id(&self) -> (r: &TrackId)
        ensures
            r == &self.cast_id,
    {
        &self.cast_id
    }

    pub fn ability_id(&self) -> (r: &AbilityId)
        ensures
            r == &self.ability_id,
    {
        &self.ability_id
    }

    pub fn source_unit(&self) -> (r: &UnitState)
        ensures
            r == &self.source_unit,
    {
        &self.source_unit
    }

    pub fn target_unit(&self) -> (r: &TargetUnitState)
        ensures
            r == &self.target_unit,
    {
        &self.target_unit
    }

}

/// The record round-trips through the wire grammar.
pub open spec fn event_combat_event_wf(m: EventCombatEvent) -> bool {
    &&& unit_state_wf(m.source_unit)
    &&& target_wf(m.target_unit)
}

/// Wire text of the record, fields comma separated.
pub open spec fn spec_dump_event_combat_event(m: EventCombatEvent) -> Seq<char> {
    ActionResult::spec_name(m.action_result) + (seq![','] + (DamageType::spec_name(m.damage_type) + (seq![','] + (spec_dump_uint(m.power_type.0 as nat) + (seq![','] + (spec_dump_uint(m.hit_value as nat) + (seq![','] + (spec_dump_uint(m.overflow as nat) + (seq![','] + (spec_dump_uint(m.cast_id.0 as nat) + (seq![','] + (spec_dump_uint(m.ability_id.0 as nat) + (seq![','] + (spec_dump_unit_state(m.source_unit) + (seq![','] + (spec_dump_target(m.target_unit)))))))))))))))))
}

/// Parses the record's fields in declaration order.
pub open spec fn spec_parse_event_combat_event(s: Seq<char>) -> Result<(EventCombatEvent, Seq<char>), Error> {
    match spec_parse_action_result(s) {
        Err(e) => Err(e),
        Ok((v_action_result, s1)) => {
            match spec_parse_damage_type(s1) {
                Err(e) => Err(e),
                Ok((v_damage_type, s2)) => {
                    match spec_parse_uint(s2, u64::MAX as nat) {
                        Err(e) => Err(e),
                        Ok((v_power_type, s3)) => {
                            match spec_parse_uint(s3, u32::MAX as nat) {
                                Err(e) => Err(e),
                                Ok((v_hit_value, s4)) => {
                                    match spec_parse_uint(s4, u32::MAX as nat) {
                                        Err(e) => Err(e),
                                        Ok((v_overflow, s5)) => {
                                            match spec_parse_uint(s5, u64::MAX as nat) {
                                                Err(e) => Err(e),
                                                Ok((v_cast_id, s6)) => {
                                                    match spec_parse_uint(s6, u64::MAX as nat) {
                                                        Err(e) => Err(e),
                                                        Ok((v_ability_id, s7)) => {
                                                            match spec_parse_unit_state(s7) {
                                                                Err(e) => Err(e),
                                                                Ok((v_source_unit, s8)) => {
                                                                    match spec_parse_target(s8) {
                                                                        Err(e) => Err(e),
                                                                        Ok((v_target_unit, s9)) => {
                                                                            let m = EventCombatEvent {
                                                                                action_result: v_action_result,
                                                                                damage_type: v_damage_type,
                                                                                power_type: PowerType(v_power_type as u64),
                                                                                hit_value: v_hit_value as u32,
                                                                                overflow: v_overflow as u32,
                                                                                cast_id: TrackId(v_cast_id as u64),
                                                                                ability_id: AbilityId(v_ability_id as u64),
                                                                                source_unit: v_source_unit,
                                                                                target_unit: v_target_unit,
                                                                            };
                                                                            Ok((m, s9))
                                                                        },
                                                                    }
                                                                },
                                                            }
                                                        },
                                                    }
                                                },
                                            }
                                        },
                                    }
                                },
                            }
                        },
                    }
                },
            }
        },
    }
}

/// Reads one `EventCombatEvent` from the line.
pub fn parse_event_combat_event(r: &mut EsoLogReaderLine) -> (res: Result<EventCombatEvent, Error>)
    requires
        old(r).wf(),
    ensures
        final(r).wf(),
        match spec_parse_event_combat_event(old(r).remaining()) {
            Ok((m, rest)) => res == Ok::<EventCombatEvent, Error>(m) && final(r).remaining() == rest,
            Err(e) => res == Err::<EventCombatEvent, Error>(e),
        },
{
    let action_result = match parse_action_result(r) { Ok(v) => v, Err(e) => { return Err(e); } };
    let damage_type = match parse_damage_type(r) { Ok(v) => v, Err(e) => { return Err(e); } };
    let power_type = PowerType(match r.read_uint(u64::MAX) { Ok(v) => v, Err(e) => { return Err(e); } });
    let hit_value = (match r.read_uint(u32::MAX as u64) { Ok(v) => v, Err(e) => { return Err(e); } }) as u32;
    let overflow = (match r.read_uint(u32::MAX as u64) { Ok(v) => v, Err(e) => { return Err(e); } }) as u32;
    let cast_id = TrackId(match r.read_uint(u64::MAX) { Ok(v) => v, Err(e) => { return Err(e); } });
    let ability_id = AbilityId(match r.read_uint(u64::MAX) { Ok(v) => v, Err(e) => { return Err(e); } });
    let source_unit = match parse_unit_state(r) { Ok(v) => v, Err(e) => { return Err(e); } };
    let target_unit = match parse_target(r) { Ok(v) => v, Err(e) => { return Err(e); } };
    Ok(EventCombatEvent {
        action_result,
        damage_type,
        power_type,
        hit_value,
        overflow,
        cast_id,
        ability_id,
        source_unit,
        target_unit,
    })
}

impl EventCombatEvent {
    /// Appends this record's wire text.
    #[verifier::rlimit(100)]
    pub fn append_to(&self, out: &mut String)
        ensures
            final(out)@ == old(out)@ + spec_dump_event_combat_event(*self),
    {
        proof {
            reveal_strlit(",");
            assert(","@ =~= seq![',']);
        }
        let ghost b0 = out@;
        append_str(out, self.action_result.name());
        let ghost b1 = out@;
        out.append(",");
        append_str(out, self.damage_type.name());
        let ghost b2 = out@;
        out.append(",");
        append_uint(out, self.power_type.0);
        let ghost b3 = out@;
        out.append(",");
        append_uint(out, self.hit_value as u64);
        let ghost b4 = out@;
        out.append(",");
        append_uint(out, self.overflow as u64);
        let ghost b5 = out@;
        out.append(",");
        append_uint(out, self.cast_id.0);
        let ghost b6 = out@;
        out.append(",");
        append_uint(out, self.ability_id.0);
        let ghost b7 = out@;
        out.append(",");
        self.source_unit.append_to(out);
        let ghost b8 = out@;
        out.append(",");
        self.target_unit.append_to(out);
        let ghost b9 = out@;
        proof {
            assert(b1 == b0 + (ActionResult::spec_name((*self).action_result)));
            assert(b2 == (b1 + seq![',']) + (DamageType::spec_name((*self).damage_type)));
            assert(b3 == (b2 + seq![',']) + (spec_dump_uint((*self).power_type.0 as nat)));
            assert(b4 == (b3 + seq![',']) + (spec_dump_uint((*self).hit_value as nat)));
            assert(b5 == (b4 + seq![',']) + (spec_dump_uint((*self).overflow as nat)));
            assert(b6 == (b5 + seq![',']) + (spec_dump_uint((*self).cast_id.0 as nat)));
            assert(b7 == (b6 + seq![',']) + (spec_dump_uint((*self).ability_id.0 as nat)));
            assert(b8 == (b7 + seq![',']) + (spec_dump_unit_state((*self).source_unit)));
            assert(b9 == (b8 + seq![',']) + (spec_dump_target((*self).target_unit)));
            assert(out@ == b9);
            let u8 = seq![','] + (spec_dump_target((*self).target_unit));
            lemma_regroup_last(b8, spec_dump_target((*self).target_unit), out@);
            assert(out@ == b8 + u8);
            let u7 = seq![','] + ((spec_dump_unit_state((*self).source_unit)) + u8);
            lemma_regroup_comma_first(b7, spec_dump_unit_state((*self).source_unit), b8, u8, out@);
            assert(out@ == b7 + u7);
            let u6 = seq![','] + ((spec_dump_uint((*self).ability_id.0 as nat)) + u7);
            lemma_regroup_comma_first(b6, spec_dump_uint((*self).ability_id.0 as nat), b7, u7, out@);
            assert(out@ == b6 + u6);
            let u5 = seq![','] + ((spec_dump_uint((*self).cast_id.0 as nat)) + u6);
            lemma_regroup_comma_first(b5, spec_dump_uint((*self).cast_id.0 as nat), b6, u6, out@);
            assert(out@ == b5 + u5);
            let u4 = seq![','] + ((spec_dump_uint((*self).overflow as nat)) + u5);
            lemma_regroup_comma_first(b4, spec_dump_uint((*self).overflow as nat), b5, u5, out@);
            assert(out@ == b4 + u4);
            let u3 = seq![','] + ((spec_dump_uint((*self).hit_value as nat)) + u4);
            lemma_regroup_comma_first(b3, spec_dump_uint((*self).hit_value as nat), b4, u4, out@);
            assert(out@ == b3 + u3);
            let u2 = seq![','] + ((spec_dump_uint((*self).power_type.0 as nat)) + u3);
            lemma_regroup_comma_first(b2, spec_dump_uint((*self).power_type.0 as nat), b3, u3, out@);
            assert(out@ == b2 + u2);
            let u1 = seq![','] + ((DamageType::spec_name((*self).damage_type)) + u2);
            lemma_regroup_comma_first(b1, DamageType::spec_name((*self).damage_type), b2, u2, out@);
            assert(out@ == b1 + u1);
            let u0 = (ActionResult::spec_name((*self).action_result)) + u1;
            lemma_regroup_head(b0, ActionResult::spec_name((*self).action_result), b1, u1, out@);
            assert(out@ == b0 + u0);
            assert(out@ == b0 + spec_dump_event_combat_event((*self)));
        }
    }
}

/// Parsing the dumped record yields the record.
#[verifier::rlimit(100)]
pub proof fn lemma_parse_event_combat_event_roundtrip(m: EventCombatEvent)
    requires
        event_combat_event_wf(m),
    ensures
        spec_parse_event_combat_event(spec_dump_event_combat_event(m)) == Ok::<(EventCombatEvent, Seq<char>), Error>((m, Seq::<char>::empty())),
{
    let rest = Seq::<char>::empty();
    assert(spec_dump_event_combat_event(m) =~= spec_dump_event_combat_event(m) + rest);
    let s8 = spec_dump_target(m.target_unit) + rest;
    let s7 = spec_dump_unit_state(m.source_unit) + (seq![','] + s8);
    let s6 = spec_dump_uint(m.ability_id.0 as nat) + (seq![','] + s7);
    let s5 = spec_dump_uint(m.cast_id.0 as nat) + (seq![','] + s6);
    let s4 = spec_dump_uint(m.overflow as nat) + (seq![','] + s5);
    let s3 = spec_dump_uint(m.hit_value as nat) + (seq![','] + s4);
    let s2 = spec_dump_uint(m.power_type.0 as nat) + (seq![','] + s3);
    let s1 = DamageType::spec_name(m.damage_type) + (seq![','] + s2);
    let s0 = ActionResult::spec_name(m.action_result) + (seq![','] + s1);
    lemma_comma_chop(s1);
    ActionResult::lemma_parse_roundtrip(m.action_result, seq![','] + s1);
    lemma_comma_chop(s2);
    DamageType::lemma_parse_roundtrip(m.damage_type, seq![','] + s2);
    lemma_comma_chop(s3);
    lemma_parse_uint_roundtrip(m.power_type.0 as nat, u64::MAX as nat, seq![','] + s3);
    lemma_comma_chop(s4);
    lemma_parse_uint_roundtrip(m.hit_value as nat, u32::MAX as nat, seq![','] + s4);
    lemma_comma_chop(s5);
    lemma_parse_uint_roundtrip(m.overflow as nat, u32::MAX as nat, seq![','] + s5);
    lemma_comma_chop(s6);
    lemma_parse_uint_roundtrip(m.cast_id.0 as nat, u64::MAX as nat, seq![','] + s6);
    lemma_comma_chop(s7);
    lemma_parse_uint_roundtrip(m.ability_id.0 as nat, u64::MAX as nat, seq![','] + s7);
    lemma_comma_chop(s8);
    lemma_parse_unit_state_roundtrip(m.source_unit, seq![','] + s8);
    lemma_parse_target_roundtrip(m.target_unit, rest);
    let v8 = spec_dump_target(m.target_unit);
    assert(v8 + rest == s8);
    let v7 = spec_dump_unit_state(m.source_unit) + (seq![','] + v8);
    lemma_shift_rest(spec_dump_unit_state(m.source_unit), v8, s8, rest);
    assert(v7 + rest == s7);
    let v6 = spec_dump_uint(m.ability_id.0 as nat) + (seq![','] + v7);
    lemma_shift_rest(spec_dump_uint(m.ability_id.0 as nat), v7, s7, rest);
    assert(v6 + rest == s6);
    let v5 = spec_dump_uint(m.cast_id.0 as nat) + (seq![','] + v6);
    lemma_shift_rest(spec_dump_uint(m.cast_id.0 as nat), v6, s6, rest);
    assert(v5 + rest == s5);
    let v4 = spec_dump_uint(m.overflow as nat) + (seq![','] + v5);
    lemma_shift_rest(spec_dump_uint(m.overflow as nat), v5, s5, rest);
    assert(v4 + rest == s4);
    let v3 = spec_dump_uint(m.hit_value as nat) + (seq![','] + v4);
    lemma_shift_rest(spec_dump_uint(m.hit_value as nat), v4, s4, rest);
    assert(v3 + rest == s3);
    let v2 = spec_dump_uint(m.power_type.0 as nat) + (seq![','] + v3);
    lemma_shift_rest(spec_dump_uint(m.power_type.0 as nat), v3, s3, rest);
    assert(v2 + rest == s2);
    let v1 = DamageType::spec_name(m.damage_type) + (seq![','] + v2);
    lemma_shift_rest(DamageType::spec_name(m.damage_type), v2, s2, rest);
    assert(v1 + rest == s1);
    let v0 = ActionResult::spec_name(m.action_result) + (seq![','] + v1);
    lemma_shift_rest(ActionResult::spec_name(m.action_result), v1, s1, rest);
    assert(v0 + rest == s0);
    assert(spec_dump_event_combat_event(m) =~= v0);
    assert(spec_dump_event_combat_event(m) + rest == s0);
}

/// An applied effect was gained, updated or faded.
#[derive(Debug, Clone, Copy, PartialEq, Eq, Structural)]
pub struct EventEffectChanged {
    pub change_type: EffectChangeType,
    pub stack_count: StackCount,
    pub cast_id: TrackId,
    pub ability_id: AbilityId,
    pub source_unit: UnitState,
    pub target_unit: TargetUnitState,
    pub player_initiated_remove_cast: Option<TrackId>,
}

impl EventEffectChanged {
    pub fn change_type(&self) -> (r: &EffectChangeType)
        ensures
            r == &self.change_type,
    {
        &self.change_type
    }

    pub fn stack_count(&self) -> (r: &StackCount)
        ensures
            r == &self.stack_count,
    {
        &self.stack_count
    }

    pub fn cast_id(&self) -> (r: &TrackId)
        ensures
            r == &self.cast_id,
    {
        &self.cast_id
    }

    pub fn ability_id(&self) -> (r: &AbilityId)
        ensures
            r == &self.ability_id,
    {
        &self.ability_id
    }

    pub fn source_unit(&self) -> (r: &UnitState)
        ensures
            r == &self.source_unit,
    {
        &self.source_unit
    }

    pub fn target_unit(&self) -> (r: &TargetUnitState)
        ensures
            r == &self.target_unit,
    {
        &self.target_unit
    }

    pub fn player_initiated_remove_cast(&self) -> (r: Option<&TrackId>)
        ensures
            r == match &self.player_initiated_remove_cast { Some(v) => Some(v), None => None::<&TrackId> },
    {
        self.player_initiated_remove_cast.as_ref()
    }

}

/// The record round-trips through the wire grammar.
pub open spec fn event_effect_changed_wf(m: EventEffectChanged) -> bool {
    &&& unit_state_wf(m.source_unit)
    &&& target_wf(m.target_unit)
}

/// Wire text of the record, fields comma separated.
pub open spec fn spec_dump_event_effect_changed(m: EventEffectChanged) -> Seq<char> {
    EffectChangeType::spec_name(m.change_type) + (seq![','] + (spec_dump_uint(m.stack_count.0 as nat) + (seq![','] + (spec_dump_uint(m.cast_id.0 as nat) + (seq![','] + (spec_dump_uint(m.ability_id.0 as nat) + (seq![','] + (spec_dump_unit_state(m.source_unit) + (seq![','] + ((spec_dump_target(m.target_unit) + (if m.player_initiated_remove_cast is Some { (seq![','] + (spec_dump_uint((m.player_initiated_remove_cast->0).0 as nat))) } else { Seq::<char>::empty() }))))))))))))
}

/// Parses the record's fields in declaration order.
pub open spec fn spec_parse_event_effect_changed(s: Seq<char>) -> Result<(EventEffectChanged, Seq<char>), Error> {
    match spec_parse_effect_change_type(s) {
        Err(e) => Err(e),
        Ok((v_change_type, s1)) => {
            match spec_parse_uint(s1, u64::MAX as nat) {
                Err(e) => Err(e),
                Ok((v_stack_count, s2)) => {
                    match spec_parse_uint(s2, u64::MAX as nat) {
                        Err(e) => Err(e),
                        Ok((v_cast_id, s3)) => {
                            match spec_parse_uint(s3, u64::MAX as nat) {
                                Err(e) => Err(e),
                                Ok((v_ability_id, s4)) => {
                                    match spec_parse_unit_state(s4) {
                                        Err(e) => Err(e),
                                        Ok((v_source_unit, s5)) => {
                                            match spec_parse_target(s5) {
                                                Err(e) => Err(e),
                                                Ok((v_target_unit, s6)) => {
                                                    match spec_parse_opt_uint(s6, u64::MAX as nat) {
                                                        Err(e) => Err(e),
                                                        Ok((v_player_initiated_remove_cast, s7)) => {
                                                            let m = EventEffectChanged {
                                                                change_type: v_change_type,
                                                                stack_count: StackCount(v_stack_count as u64),
                                                                cast_id: TrackId(v_cast_id as u64),
                                                                ability_id: AbilityId(v_ability_id as u64),
                                                                source_unit: v_source_unit,
                                                                target_unit: v_target_unit,
                                                                player_initiated_remove_cast: (match v_player_initiated_remove_cast { Some(x) => Some(TrackId(x as u64)), None => None }),
                                                            };
                                                            Ok((m, s7))
                                                        },
                                                    }
                                                },
                                            }
                                        },
                                    }
                                },
                            }
                        },
                    }
                },
            }
        },
    }
}

/// Reads one `EventEffectChanged` from the line.
pub fn parse_event_effect_changed(r: &mut EsoLogReaderLine) -> (res: Result<EventEffectChanged, Error>)
    requires
        old(r).wf(),
    ensures
        final(r).wf(),
        match spec_parse_event_effect_changed(old(r).remaining()) {
            Ok((m, rest)) => res == Ok::<EventEffectChanged, Error>(m) && final(r).remaining() == rest,
            Err(e) => res == Err::<EventEffectChanged, Error>(e),
        },
{
    let change_type = match parse_effect_change_type(r) { Ok(v) => v, Err(e) => { return Err(e); } };
    let stack_count = StackCount(match r.read_uint(u64::MAX) { Ok(v) => v, Err(e) => { return Err(e); } });
    let cast_id = TrackId(match r.read_uint(u64::MAX) { Ok(v) => v, Err(e) => { return Err(e); } });
    let ability_id = AbilityId(match r.read_uint(u64::MAX) { Ok(v) => v, Err(e) => { return Err(e); } });
    let source_unit = match parse_unit_state(r) { Ok(v) => v, Err(e) => { return Err(e); } };
    let target_unit = match parse_target(r) { Ok(v) => v, Err(e) => { return Err(e); } };
    let player_initiated_remove_cast = match parse_opt_uint(r, u64::MAX) { Ok(Some(v)) => Some(TrackId(v)), Ok(None) => None, Err(e) => { return Err(e); } };
    Ok(EventEffectChanged {
        change_type,
        stack_count,
        cast_id,
        ability_id,
        source_unit,
        target_unit,
        player_initiated_remove_cast,
    })
}

impl EventEffectChanged {
    /// Appends this record's wire text.
    #[verifier::rlimit(100)]
    pub fn append_to(&self, out: &mut String)
        ensures
            final(out)@ == old(out)@ + spec_dump_event_effect_changed(*self),
    {
        proof {
            reveal_strlit(",");
            assert(","@ =~= seq![',']);
        }
        let ghost b0 = out@;
        append_str(out, self.change_type.name());
        let ghost b1 = out@;
        out.append(",");
        append_uint(out, self.stack_count.0);
        let ghost b2 = out@;
        out.append(",");
        append_uint(out, self.cast_id.0);
        let ghost b3 = out@;
        out.append(",");
        append_uint(out, self.ability_id.0);
        let ghost b4 = out@;
        out.append(",");
        self.source_unit.append_to(out);
        let ghost b5 = out@;
        out.append(",");
        self.target_unit.append_to(out);
        let ghost b6 = out@;
        if self.player_initiated_remove_cast.is_some() {
            out.append(",");
            append_uint(out, match &self.player_initiated_remove_cast { Some(v) => v.0, None => 0 });
        }
        proof {
            if self.player_initiated_remove_cast is Some {
                assert(b1 == b0 + (EffectChangeType::spec_name((*self).change_type)));
                assert(b2 == (b1 + seq![',']) + (spec_dump_uint((*self).stack_count.0 as nat)));
                assert(b3 == (b2 + seq![',']) + (spec_dump_uint((*self).cast_id.0 as nat)));
                assert(b4 == (b3 + seq![',']) + (spec_dump_uint((*self).ability_id.0 as nat)));
                assert(b5 == (b4 + seq![',']) + (spec_dump_unit_state((*self).source_unit)));
                assert(b6 == (b5 + seq![',']) + (spec_dump_target((*self).target_unit)));
                let c0 = (b6 + seq![',']) + (spec_dump_uint(((*self).player_initiated_remove_cast->0).0 as nat));
                assert(out@ == c0);
                let u6 = seq![','] + (spec_dump_uint(((*self).player_initiated_remove_cast->0).0 as nat));
                lemma_regroup_last(b6, spec_dump_uint(((*self).player_initiated_remove_cast->0).0 as nat), out@);
                assert(out@ == b6 + u6);
                let u5 = seq![','] + ((spec_dump_target((*self).target_unit)) + u6);
                lemma_regroup_comma_first(b5, spec_dump_target((*self).target_unit), b6, u6, out@);
                assert(out@ == b5 + u5);
                let u4 = seq![','] + ((spec_dump_unit_state((*self).source_unit)) + u5);
                lemma_regroup_comma_first(b4, spec_dump_unit_state((*self).source_unit), b5, u5, out@);
                assert(out@ == b4 + u4);
                let u3 = seq![','] + ((spec_dump_uint((*self).ability_id.0 as nat)) + u4);
                lemma_regroup_comma_first(b3, spec_dump_uint((*self).ability_id.0 as nat), b4, u4, out@);
                assert(out@ == b3 + u3);
                let u2 = seq![','] + ((spec_dump_uint((*self).cast_id.0 as nat)) + u3);
                lemma_regroup_comma_first(b2, spec_dump_uint((*self).cast_id.0 as nat), b3, u3, out@);
                assert(out@ == b2 + u2);
                let u1 = seq![','] + ((spec_dump_uint((*self).stack_count.0 as nat)) + u2);
                lemma_regroup_comma_first(b1, spec_dump_uint((*self).stack_count.0 as nat), b2, u2, out@);
                assert(out@ == b1 + u1);
                let u0 = (EffectChangeType::spec_name((*self).change_type)) + u1;
                lemma_regroup_head(b0, EffectChangeType::spec_name((*self).change_type), b1, u1, out@);
                assert(out@ == b0 + u0);
                assert(out@ == b0 + spec_dump_event_effect_changed((*self)));
            } else {
                assert(b1 == b0 + (EffectChangeType::spec_name((*self).change_type)));
                assert(b2 == (b1 + seq![',']) + (spec_dump_uint((*self).stack_count.0 as nat)));
                assert(b3 == (b2 + seq![',']) + (spec_dump_uint((*self).cast_id.0 as nat)));
                assert(b4 == (b3 + seq![',']) + (spec_dump_uint((*self).ability_id.0 as nat)));
                assert(b5 == (b4 + seq![',']) + (spec_dump_unit_state((*self).source_unit)));
                assert(b6 == (b5 + seq![',']) + (spec_dump_target((*self).target_unit)));
                assert(out@ == b6);
                let u5 = seq![','] + (spec_dump_target((*self).target_unit));
                lemma_regroup_last(b5, spec_dump_target((*self).target_unit), out@);
                assert(out@ == b5 + u5);
                let u4 = seq![','] + ((spec_dump_unit_state((*self).source_unit)) + u5);
                lemma_regroup_comma_first(b4, spec_dump_unit_state((*self).source_unit), b5, u5, out@);
                assert(out@ == b4 + u4);
                let u3 = seq![','] + ((spec_dump_uint((*self).ability_id.0 as nat)) + u4);
                lemma_regroup_comma_first(b3, spec_dump_uint((*self).ability_id.0 as nat), b4, u4, out@);
                assert(out@ == b3 + u3);
                let u2 = seq![','] + ((spec_dump_uint((*self).cast_id.0 as nat)) + u3);
                lemma_regroup_comma_first(b2, spec_dump_uint((*self).cast_id.0 as nat), b3, u3, out@);
                assert(out@ == b2 + u2);
                let u1 = seq![','] + ((spec_dump_uint((*self).stack_count.0 as nat)) + u2);
                lemma_regroup_comma_first(b1, spec_dump_uint((*self).stack_count.0 as nat), b2, u2, out@);
                assert(out@ == b1 + u1);
                let u0 = (EffectChangeType::spec_name((*self).change_type)) + u1;
                lemma_regroup_head(b0, EffectChangeType::spec_name((*self).change_type), b1, u1, out@);
                assert(out@ == b0 + u0);
                assert(((spec_dump_target((*self).target_unit)) + (if (*self).player_initiated_remove_cast is Some { (seq![','] + (spec_dump_uint(((*self).player_initiated_remove_cast->0).0 as nat))) } else { Seq::<char>::empty() })) =~= (spec_dump_target((*self).target_unit)));
                assert(out@ == b0 + spec_dump_event_effect_changed((*self)));
            }
        }
    }
}

/// Parsing the dumped record yields the record.
#[verifier::rlimit(100)]
pub proof fn lemma_parse_event_effect_changed_roundtrip(m: EventEffectChanged)
    requires
        event_effect_changed_wf(m),
    ensures
        spec_parse_event_effect_changed(spec_dump_event_effect_changed(m)) == Ok::<(EventEffectChanged, Seq<char>), Error>((m, Seq::<char>::empty())),
{
    let rest = Seq::<char>::empty();
    assert(spec_dump_event_effect_changed(m) =~= spec_dump_event_effect_changed(m) + rest);
    if m.player_initiated_remove_cast is Some {
        let s6 = spec_dump_uint((m.player_initiated_remove_cast->0).0 as nat) + rest;
        let s5 = spec_dump_target(m.target_unit) + (seq![','] + s6);
        let s4 = spec_dump_unit_state(m.source_unit) + (seq![','] + s5);
        let s3 = spec_dump_uint(m.ability_id.0 as nat) + (seq![','] + s4);
        let s2 = spec_dump_uint(m.cast_id.0 as nat) + (seq![','] + s3);
        let s1 = spec_dump_uint(m.stack_count.0 as nat) + (seq![','] + s2);
        let s0 = EffectChangeType::spec_name(m.change_type) + (seq![','] + s1);
        lemma_comma_chop(s1);
        EffectChangeType::lemma_parse_roundtrip(m.change_type, seq![','] + s1);
        lemma_comma_chop(s2);
        lemma_parse_uint_roundtrip(m.stack_count.0 as nat, u64::MAX as nat, seq![','] + s2);
        lemma_comma_chop(s3);
        lemma_parse_uint_roundtrip(m.cast_id.0 as nat, u64::MAX as nat, seq![','] + s3);
        lemma_comma_chop(s4);
        lemma_parse_uint_roundtrip(m.ability_id.0 as nat, u64::MAX as nat, seq![','] + s4);
        lemma_comma_chop(s5);
        lemma_parse_unit_state_roundtrip(m.source_unit, seq![','] + s5);
        lemma_comma_chop(s6);
        lemma_parse_target_roundtrip(m.target_unit, seq![','] + s6);
        lemma_parse_opt_uint_some((m.player_initiated_remove_cast->0).0 as nat, u64::MAX as nat, rest);
        let v6 = spec_dump_uint((m.player_initiated_remove_cast->0).0 as nat);
        assert(v6 + rest == s6);
        let v5 = spec_dump_target(m.target_unit) + (seq![','] + v6);
        lemma_shift_rest(spec_dump_target(m.target_unit), v6, s6, rest);
        assert(v5 + rest == s5);
        let v4 = spec_dump_unit_state(m.source_unit) + (seq![','] + v5);
        lemma_shift_rest(spec_dump_unit_state(m.source_unit), v5, s5, rest);
        assert(v4 + rest == s4);
        let v3 = spec_dump_uint(m.ability_id.0 as nat) + (seq![','] + v4);
        lemma_shift_rest(spec_dump_uint(m.ability_id.0 as nat), v4, s4, rest);
        assert(v3 + rest == s3);
        let v2 = spec_dump_uint(m.cast_id.0 as nat) + (seq![','] + v3);
        lemma_shift_rest(spec_dump_uint(m.cast_id.0 as nat), v3, s3, rest);
        assert(v2 + rest == s2);
        let v1 = spec_dump_uint(m.stack_count.0 as nat) + (seq![','] + v2);
        lemma_shift_rest(spec_dump_uint(m.stack_count.0 as nat), v2, s2, rest);
        assert(v1 + rest == s1);
        let v0 = EffectChangeType::spec_name(m.change_type) + (seq![','] + v1);
        lemma_shift_rest(EffectChangeType::spec_name(m.change_type), v1, s1, rest);
        assert(v0 + rest == s0);
        assert(spec_dump_event_effect_changed(m) =~= v0);
        assert(spec_dump_event_effect_changed(m) + rest == s0);
    } else {
        let s5 = spec_dump_target(m.target_unit) + rest;
        let s4 = spec_dump_unit_state(m.source_unit) + (seq![','] + s5);
        let s3 = spec_dump_uint(m.ability_id.0 as nat) + (seq![','] + s4);
        let s2 = spec_dump_uint(m.cast_id.0 as nat) + (seq![','] + s3);
        let s1 = spec_dump_uint(m.stack_count.0 as nat) + (seq![','] + s2);
        let s0 = EffectChangeType::spec_name(m.change_type) + (seq![','] + s1);
        lemma_comma_chop(s1);
        EffectChangeType::lemma_parse_roundtrip(m.change_type, seq![','] + s1);
        lemma_comma_chop(s2);
        lemma_parse_uint_roundtrip(m.stack_count.0 as nat, u64::MAX as nat, seq![','] + s2);
        lemma_comma_chop(s3);
        lemma_parse_uint_roundtrip(m.cast_id.0 as nat, u64::MAX as nat, seq![','] + s3);
        lemma_comma_chop(s4);
        lemma_parse_uint_roundtrip(m.ability_id.0 as nat, u64::MAX as nat, seq![','] + s4);
        lemma_comma_chop(s5);
        lemma_parse_unit_state_roundtrip(m.source_unit, seq![','] + s5);
        lemma_parse_target_roundtrip(m.target_unit, rest);
        let v5 = spec_dump_target(m.target_unit);
        assert(v5 + rest == s5);
        let v4 = spec_dump_unit_state(m.source_unit) + (seq![','] + v5);
        lemma_shift_rest(spec_dump_unit_state(m.source_unit), v5, s5, rest);
        assert(v4 + rest == s4);
        let v3 = spec_dump_uint(m.ability_id.0 as nat) + (seq![','] + v4);
        lemma_shift_rest(spec_dump_uint(m.ability_id.0 as nat), v4, s4, rest);
        assert(v3 + rest == s3);
        let v2 = spec_dump_uint(m.cast_id.0 as nat) + (seq![','] + v3);
        lemma_shift_rest(spec_dump_uint(m.cast_id.0 as nat), v3, s3, rest);
        assert(v2 + rest == s2);
        let v1 = spec_dump_uint(m.stack_count.0 as nat) + (seq![','] + v2);
        lemma_shift_rest(spec_dump_uint(m.stack_count.0 as nat), v2, s2, rest);
        assert(v1 + rest == s1);
        let v0 = EffectChangeType::spec_name(m.change_type) + (seq![','] + v1);
        lemma_shift_rest(EffectChangeType::spec_name(m.change_type), v1, s1, rest);
        assert(v0 + rest == s0);
        assert(spec_dump_event_effect_changed(m) =~= v0);
        assert(spec_dump_event_effect_changed(m) + rest == s0);
    }
}

/// Classification of an ability's effect.
#[derive(Debug, Clone, Copy, PartialEq, Eq, Structural)]
pub struct EventEffectInfo {
    pub ability_id: AbilityId,
    pub effect_type: EffectType,
    pub status_effect_type: StatusEffectType,
    pub effect_bar_display_behaviour: DisplayBehaviour,
    pub grants_synergy: Option<AbilityId>,
}

impl EventEffectInfo {
    pub fn ability_id(&self) -> (r: &AbilityId)
        ensures
            r == &self.ability_id,
    {
        &self.ability_id
    }

    pub fn effect_type(&self) -> (r: &EffectType)
        ensures
            r == &self.effect_type,
    {
        &self.effect_type
    }

    pub fn status_effect_type(&self) -> (r: &StatusEffectType)
        ensures
            r == &self.status_effect_type,
    {
        &self.status_effect_type
    }

    pub fn effect_bar_display_behaviour(&self) -> (r: &DisplayBehaviour)
        ensures
            r == &self.effect_bar_display_behaviour,
    {
        &self.effect_bar_display_behaviour
    }

    pub fn grants_synergy(&self) -> (r: Option<&AbilityId>)
        ensures
            r == match &self.grants_synergy { Some(v) => Some(v), None => None::<&AbilityId> },
    {
        self.grants_synergy.as_ref()
    }

}

/// The record round-trips through the wire grammar.
pub open spec fn event_effect_info_wf(m: EventEffectInfo) -> bool {
    true
}

/// Wire text of the record, fields comma separated.
pub open spec fn spec_dump_event_effect_info(m: EventEffectInfo) -> Seq<char> {
    spec_dump_uint(m.ability_id.0 as nat) + (seq![','] + (EffectType::spec_name(m.effect_type) + (seq![','] + (StatusEffectType::spec_name(m.status_effect_type) + (seq![','] + ((DisplayBehaviour::spec_name(m.effect_bar_display_behaviour) + (if m.grants_synergy is Some { (seq![','] + (spec_dump_uint((m.grants_synergy->0).0 as nat))) } else { Seq::<char>::empty() }))))))))
}

/// Parses the record's fields in declaration order.
pub open spec fn spec_parse_event_effect_info(s: Seq<char>) -> Result<(EventEffectInfo, Seq<char>), Error> {
    match spec_parse_uint(s, u64::MAX as nat) {
        Err(e) => Err(e),
        Ok((v_ability_id, s1)) => {
            match spec_parse_effect_type(s1) {
                Err(e) => Err(e),
                Ok((v_effect_type, s2)) => {
                    match spec_parse_status_effect_type(s2) {
                        Err(e) => Err(e),
                        Ok((v_status_effect_type, s3)) => {
                            match spec_parse_display_behaviour(s3) {
                                Err(e) => Err(e),
                                Ok((v_effect_bar_display_behaviour, s4)) => {
                                    match spec_parse_opt_uint(s4, u64::MAX as nat) {
                                        Err(e) => Err(e),
                                        Ok((v_grants_synergy, s5)) => {
                                            let m = EventEffectInfo {
                                                ability_id: AbilityId(v_ability_id as u64),
                                                effect_type: v_effect_type,
                                                status_effect_type: v_status_effect_type,
                                                effect_bar_display_behaviour: v_effect_bar_display_behaviour,
                                                grants_synergy: (match v_grants_synergy { Some(x) => Some(AbilityId(x as u64)), None => None }),
                                            };
                                            Ok((m, s5))
                                        },
                                    }
                                },
                            }
                        },
                    }
                },
            }
        },
    }
}

/// Reads one `EventEffectInfo` from the line.
pub fn parse_event_effect_info(r: &mut EsoLogReaderLine) -> (res: Result<EventEffectInfo, Error>)
    requires
        old(r).wf(),
    ensures
        final(r).wf(),
        match spec_parse_event_effect_info(old(r).remaining()) {
            Ok((m, rest)) => res == Ok::<EventEffectInfo, Error>(m) && final(r).remaining() == rest,
            Err(e) => res == Err::<EventEffectInfo, Error>(e),
        },
{
    let ability_id = AbilityId(match r.read_uint(u64::MAX) { Ok(v) => v, Err(e) => { return Err(e); } });
    let effect_type = match parse_effect_type(r) { Ok(v) => v, Err(e) => { return Err(e); } };
    let status_effect_type = match parse_status_effect_type(r) { Ok(v) => v, Err(e) => { return Err(e); } };
    let effect_bar_display_behaviour = match parse_display_behaviour(r) { Ok(v) => v, Err(e) => { return Err(e); } };
    let grants_synergy = match parse_opt_uint(r, u64::MAX) { Ok(Some(v)) => Some(AbilityId(v)), Ok(None) => None, Err(e) => { return Err(e); } };
    Ok(EventEffectInfo {
        ability_id,
        effect_type,
        status_effect_type,
        effect_bar_display_behaviour,
        grants_synergy,
    })
}

impl EventEffectInfo {
    /// Appends this record's wire text.
    #[verifier::rlimit(100)]
    pub fn append_to(&self, out: &mut String)
        ensures
            final(out)@ == old(out)@ + spec_dump_event_effect_info(*self),
    {
        proof {
            reveal_strlit(",");
            assert(","@ =~= seq![',']);
        }
        let ghost b0 = out@;
        append_uint(out, self.ability_id.0);
        let ghost b1 = out@;
        out.append(",");
        append_str(out, self.effect_type.name());
        let ghost b2 = out@;
        out.append(",");
        append_str(out, self.status_effect_type.name());
        let ghost b3 = out@;
        out.append(",");
        append_str(out, self.effect_bar_display_behaviour.name());
        let ghost b4 = out@;
        if self.grants_synergy.is_some() {
            out.append(",");
            append_uint(out, match &self.grants_synergy { Some(v) => v.0, None => 0 });
        }
        proof {
            if self.grants_synergy is Some {
                assert(b1 == b0 + (spec_dump_uint((*self).ability_id.0 as nat)));
                assert(b2 == (b1 + seq![',']) + (EffectType::spec_name((*self).effect_type)));
                assert(b3 == (b2 + seq![',']) + (StatusEffectType::spec_name((*self).status_effect_type)));
                assert(b4 == (b3 + seq![',']) + (DisplayBehaviour::spec_name((*self).effect_bar_display_behaviour)));
                let c0 = (b4 + seq![',']) + (spec_dump_uint(((*self).grants_synergy->0).0 as nat));
                assert(out@ == c0);
                let u4 = seq![','] + (spec_dump_uint(((*self).grants_synergy->0).0 as nat));
                lemma_regroup_last(b4, spec_dump_uint(((*self).grants_synergy->0).0 as nat), out@);
                assert(out@ == b4 + u4);
                let u3 = seq![','] + ((DisplayBehaviour::spec_name((*self).effect_bar_display_behaviour)) + u4);
                lemma_regroup_comma_first(b3, DisplayBehaviour::spec_name((*self).effect_bar_display_behaviour), b4, u4, out@);
                assert(out@ == b3 + u3);
                let u2 = seq![','] + ((StatusEffectType::spec_name((*self).status_effect_type)) + u3);
                lemma_regroup_comma_first(b2, StatusEffectType::spec_name((*self).status_effect_type), b3, u3, out@);
                assert(out@ == b2 + u2);
                let u1 = seq![','] + ((EffectType::spec_name((*self).effect_type)) + u2);
                lemma_regroup_comma_first(b1, EffectType::spec_name((*self).effect_type), b2, u2, out@);
                assert(out@ == b1 + u1);
                let u0 = (spec_dump_uint((*self).ability_id.0 as nat)) + u1;
                lemma_regroup_head(b0, spec_dump_uint((*self).ability_id.0 as nat), b1, u1, out@);
                assert(out@ == b0 + u0);
                assert(out@ == b0 + spec_dump_event_effect_info((*self)));
            } else {
                assert(b1 == b0 + (spec_dump_uint((*self).ability_id.0 as nat)));
                assert(b2 == (b1 + seq![',']) + (EffectType::spec_name((*self).effect_type)));
                assert(b3 == (b2 + seq![',']) + (StatusEffectType::spec_name((*self).status_effect_type)));
                assert(b4 == (b3 + seq![',']) + (DisplayBehaviour::spec_name((*self).effect_bar_display_behaviour)));
                assert(out@ == b4);
                let u3 = seq![','] + (DisplayBehaviour::spec_name((*self).effect_bar_display_behaviour));
                lemma_regroup_last(b3, DisplayBehaviour::spec_name((*self).effect_bar_display_behaviour), out@);
                assert(out@ == b3 + u3);
                let u2 = seq![','] + ((StatusEffectType::spec_name((*self).status_effect_type)) + u3);
                lemma_regroup_comma_first(b2, StatusEffectType::spec_name((*self).status_effect_type), b3, u3, out@);
                assert(out@ == b2 + u2);
                let u1 = seq![','] + ((EffectType::spec_name((*self).effect_type)) + u2);
                lemma_regroup_comma_first(b1, EffectType::spec_name((*self).effect_type), b2, u2, out@);
                assert(out@ == b1 + u1);
                let u0 = (spec_dump_uint((*self).ability_id.0 as nat)) + u1;
                lemma_regroup_head(b0, spec_dump_uint((*self).ability_id.0 as nat), b1, u1, out@);
                assert(out@ == b0 + u0);
                assert(((DisplayBehaviour::spec_name((*self).effect_bar_display_behaviour)) + (if (*self).grants_synergy is Some { (seq![','] + (spec_dump_uint(((*self).grants_synergy->0).0 as nat))) } else { Seq::<char>::empty() })) =~= (DisplayBehaviour::spec_name((*self).effect_bar_display_behaviour)));
                assert(out@ == b0 + spec_dump_event_effect_info((*self)));
            }
        }
    }
}

/// Parsing the dumped record yields the record.
#[verifier::rlimit(100)]
pub proof fn lemma_parse_event_effect_info_roundtrip(m: EventEffectInfo)
    requires
        event_effect_info_wf(m),
    ensures
        spec_parse_event_effect_info(spec_dump_event_effect_info(m)) == Ok::<(EventEffectInfo, Seq<char>), Error>((m, Seq::<char>::empty())),
{
    let rest = Seq::<char>::empty();
    assert(spec_dump_event_effect_info(m) =~= spec_dump_event_effect_info(m) + rest);
    if m.grants_synergy is Some {
        let s4 = spec_dump_uint((m.grants_synergy->0).0 as nat) + rest;
        let s3 = DisplayBehaviour::spec_name(m.effect_bar_display_behaviour) + (seq![','] + s4);
        let s2 = StatusEffectType::spec_name(m.status_effect_type) + (seq![','] + s3);
        let s1 = EffectType::spec_name(m.effect_type) + (seq![','] + s2);
        let s0 = spec_dump_uint(m.ability_id.0 as nat) + (seq![','] + s1);
        lemma_comma_chop(s1);
        lemma_parse_uint_roundtrip(m.ability_id.0 as nat, u64::MAX as nat, seq![','] + s1);
        lemma_comma_chop(s2);
        EffectType::lemma_parse_roundtrip(m.effect_type, seq![','] + s2);
        lemma_comma_chop(s3);
        StatusEffectType::lemma_parse_roundtrip(m.status_effect_type, seq![','] + s3);
        lemma_comma_chop(s4);
        DisplayBehaviour::lemma_parse_roundtrip(m.effect_bar_display_behaviour, seq![','] + s4);
        lemma_parse_opt_uint_some((m.grants_synergy->0).0 as nat, u64::MAX as nat, rest);
        let v4 = spec_dump_uint((m.grants_synergy->0).0 as nat);
        assert(v4 + rest == s4);
        let v3 = DisplayBehaviour::spec_name(m.effect_bar_display_behaviour) + (seq![','] + v4);
        lemma_shift_rest(DisplayBehaviour::spec_name(m.effect_bar_display_behaviour), v4, s4, rest);
        assert(v3 + rest == s3);
        let v2 = StatusEffectType::spec_name(m.status_effect_type) + (seq![','] + v3);
        lemma_shift_rest(StatusEffectType::spec_name(m.status_effect_type), v3, s3, rest);
        assert(v2 + rest == s2);
        let v1 = EffectType::spec_name(m.effect_type) + (seq![','] + v2);
        lemma_shift_rest(EffectType::spec_name(m.effect_type), v2, s2, rest);
        assert(v1 + rest == s1);
        let v0 = spec_dump_uint(m.ability_id.0 as nat) + (seq![','] + v1);
        lemma_shift_rest(spec_dump_uint(m.ability_id.0 as nat), v1, s1, rest);
        assert(v0 + rest == s0);
        assert(spec_dump_event_effect_info(m) =~= v0);
        assert(spec_dump_event_effect_info(m) + rest == s0);
    } else {
        let s3 = DisplayBehaviour::spec_name(m.effect_bar_display_behaviour) + rest;
        let s2 = StatusEffectType::spec_name(m.status_effect_type) + (seq![','] + s3);
        let s1 = EffectType::spec_name(m.effect_type) + (seq![','] + s2);
        let s0 = spec_dump_uint(m.ability_id.0 as nat) + (seq![','] + s1);
        lemma_comma_chop(s1);
        lemma_parse_uint_roundtrip(m.ability_id.0 as nat, u64::MAX as nat, seq![','] + s1);
        lemma_comma_chop(s2);
        EffectType::lemma_parse_roundtrip(m.effect_type, seq![','] + s2);
        lemma_comma_chop(s3);
        StatusEffectType::lemma_parse_roundtrip(m.status_effect_type, seq![','] + s3);
        DisplayBehaviour::lemma_parse_roundtrip(m.effect_bar_display_behaviour, rest);
        let v3 = DisplayBehaviour::spec_name(m.effect_bar_display_behaviour);
        assert(v3 + rest == s3);
        let v2 = StatusEffectType::spec_name(m.status_effect_type) + (seq![','] + v3);
        lemma_shift_rest(StatusEffectType::spec_name(m.status_effect_type), v3, s3, rest);
        assert(v2 + rest == s2);
        let v1 = EffectType::spec_name(m.effect_type) + (seq![','] + v2);
        lemma_shift_rest(EffectType::spec_name(m.effect_type), v2, s2, rest);
        assert(v1 + rest == s1);
        let v0 = spec_dump_uint(m.ability_id.0 as nat) + (seq![','] + v1);
        lemma_shift_rest(spec_dump_uint(m.ability_id.0 as nat), v1, s1, rest);
        assert(v0 + rest == s0);
        assert(spec_dump_event_effect_info(m) =~= v0);
        assert(spec_dump_event_effect_info(m) + rest == s0);
    }
}

/// A cast ended; the final optional slot appears in real logs and is kept as-is.
#[derive(Debug, Clone, Copy, PartialEq, Eq, Structural)]
pub struct EventEndCast {
    pub reason: EndCastReason,
    pub cast_id: TrackId,
    pub interrupting_ability_id: Option<AbilityId>,
    pub interrupting_unit_id: Option<UnitId>,
    pub unknown_field_4: Option<Id>,
}

impl EventEndCast {
    pub fn reason(&self) -> (r: &EndCastReason)
        ensures
            r == &self.reason,
    {
        &self.reason
    }

    pub fn cast_id(&self) -> (r: &TrackId)
        ensures
            r == &self.cast_id,
    {
        &self.cast_id
    }

    pub fn interrupting_ability_id(&self) -> (r: Option<&AbilityId>)
        ensures
            r == match &self.interrupting_ability_id { Some(v) => Some(v), None => None::<&AbilityId> },
    {
        self.interrupting_ability_id.as_ref()
    }

    pub fn interrupting_unit_id(&self) -> (r: Option<&UnitId>)
        ensures
            r == match &self.interrupting_unit_id { Some(v) => Some(v), None => None::<&UnitId> },
    {
        self.interrupting_unit_id.as_ref()
    }

    pub fn unknown_field_4(&self) -> (r: Option<&Id>)
        ensures
            r == match &self.unknown_field_4 { Some(v) => Some(v), None => None::<&Id> },
    {
        self.unknown_field_4.as_ref()
    }

}

/// The record round-trips through the wire grammar.
pub open spec fn event_end_cast_wf(m: EventEndCast) -> bool {
    &&& (m.interrupting_unit_id is Some ==> m.interrupting_ability_id is Some)
    &&& (m.unknown_field_4 is Some ==> m.interrupting_unit_id is Some)
}

/// Wire text of the record, fields comma separated.
pub open spec fn spec_dump_event_end_cast(m: EventEndCast) -> Seq<char> {
    EndCastReason::spec_name(m.reason) + (seq![','] + ((spec_dump_uint(m.cast_id.0 as nat) + (if m.interrupting_ability_id is Some { (seq![','] + (spec_dump_uint((m.interrupting_ability_id->0).0 as nat) + (if m.interrupting_unit_id is Some { (seq![','] + (spec_dump_uint((m.interrupting_unit_id->0).0 as nat) + (if m.unknown_field_4 is Some { (seq![','] + (spec_dump_uint((m.unknown_field_4->0).0 as nat))) } else { Seq::<char>::empty() }))) } else { Seq::<char>::empty() }))) } else { Seq::<char>::empty() }))))
}

/// Parses the record's fields in declaration order.
pub open spec fn spec_parse_event_end_cast(s: Seq<char>) -> Result<(EventEndCast, Seq<char>), Error> {
    match spec_parse_end_cast_reason(s) {
        Err(e) => Err(e),
        Ok((v_reason, s1)) => {
            match spec_parse_uint(s1, u64::MAX as nat) {
                Err(e) => Err(e),
                Ok((v_cast_id, s2)) => {
                    match spec_parse_opt_uint(s2, u64::MAX as nat) {
                        Err(e) => Err(e),
                        Ok((v_interrupting_ability_id, s3)) => {
                            match spec_parse_opt_uint(s3, u64::MAX as nat) {
                                Err(e) => Err(e),
                                Ok((v_interrupting_unit_id, s4)) => {
                                    match spec_parse_opt_uint(s4, u64::MAX as nat) {
                                        Err(e) => Err(e),
                                        Ok((v_unknown_field_4, s5)) => {
                                            let m = EventEndCast {
                                                reason: v_reason,
                                                cast_id: TrackId(v_cast_id as u64),
                                                interrupting_ability_id: (match v_interrupting_ability_id { Some(x) => Some(AbilityId(x as u64)), None => None }),
                                                interrupting_unit_id: (match v_interrupting_unit_id { Some(x) => Some(UnitId(x as u64)), None => None }),
                                                unknown_field_4: (match v_unknown_field_4 { Some(x) => Some(Id(x as u64)), None => None }),
                                            };
                                            Ok((m, s5))
                                        },
                                    }
                                },
                            }
                        },
                    }
                },
            }
        },
    }
}

/// Reads one `EventEndCast` from the line.
pub fn parse_event_end_cast(r: &mut EsoLogReaderLine) -> (res: Result<EventEndCast, Error>)
    requires
        old(r).wf(),
    ensures
        final(r).wf(),
        match spec_parse_event_end_cast(old(r).remaining()) {
            Ok((m, rest)) => res == Ok::<EventEndCast, Error>(m) && final(r).remaining() == rest,
            Err(e) => res == Err::<EventEndCast, Error>(e),
        },
{
    let reason = match parse_end_cast_reason(r) { Ok(v) => v, Err(e) => { return Err(e); } };
    let cast_id = TrackId(match r.read_uint(u64::MAX) { Ok(v) => v, Err(e) => { return Err(e); } });
    let interrupting_ability_id = match parse_opt_uint(r, u64::MAX) { Ok(Some(v)) => Some(AbilityId(v)), Ok(None) => None, Err(e) => { return Err(e); } };
    let interrupting_unit_id = match parse_opt_uint(r, u64::MAX) { Ok(Some(v)) => Some(UnitId(v)), Ok(None) => None, Err(e) => { return Err(e); } };
    let unknown_field_4 = match parse_opt_uint(r, u64::MAX) { Ok(Some(v)) => Some(Id(v)), Ok(None) => None, Err(e) => { return Err(e); } };
    Ok(EventEndCast {
        reason,
        cast_id,
        interrupting_ability_id,
        interrupting_unit_id,
        unknown_field_4,
    })
}

impl EventEndCast {
    /// Appends this record's wire text.
    #[verifier::rlimit(100)]
    pub fn append_to(&self, out: &mut String)
        ensures
            final(out)@ == old(out)@ + spec_dump_event_end_cast(*self),
    {
        proof {
            reveal_strlit(",");
            assert(","@ =~= seq![',']);
        }
        let ghost b0 = out@;
        append_str(out, self.reason.name());
        let ghost b1 = out@;
        out.append(",");
        append_uint(out, self.cast_id.0);
        let ghost b2 = out@;
        if self.interrupting_ability_id.is_some() {
            out.append(",");
            append_uint(out, match &self.interrupting_ability_id { Some(v) => v.0, None => 0 });
            if self.interrupting_unit_id.is_some() {
                out.append(",");
                append_uint(out, match &self.interrupting_unit_id { Some(v) => v.0, None => 0 });
                if self.unknown_field_4.is_some() {
                    out.append(",");
                    append_uint(out, match &self.unknown_field_4 { Some(v) => v.0, None => 0 });
                }
            }
        }
        proof {
            if self.interrupting_ability_id is Some {
                if self.interrupting_unit_id is Some {
                    if self.unknown_field_4 is Some {
                        assert(b1 == b0 + (EndCastReason::spec_name((*self).reason)));
                        assert(b2 == (b1 + seq![',']) + (spec_dump_uint((*self).cast_id.0 as nat)));
                        let c0 = (b2 + seq![',']) + (spec_dump_uint(((*self).interrupting_ability_id->0).0 as nat));
                        let c1 = (c0 + seq![',']) + (spec_dump_uint(((*self).interrupting_unit_id->0).0 as nat));
                        let c2 = (c1 + seq![',']) + (spec_dump_uint(((*self).unknown_field_4->0).0 as nat));
                        assert(out@ == c2);
                        let u4 = seq![','] + (spec_dump_uint(((*self).unknown_field_4->0).0 as nat));
                        lemma_regroup_last(c1, spec_dump_uint(((*self).unknown_field_4->0).0 as nat), out@);
                        assert(out@ == c1 + u4);
                        let u3 = seq![','] + ((spec_dump_uint(((*self).interrupting_unit_id->0).0 as nat)) + u4);
                        lemma_regroup_comma_first(c0, spec_dump_uint(((*self).interrupting_unit_id->0).0 as nat), c1, u4, out@);
                        assert(out@ == c0 + u3);
                        let u2 = seq![','] + ((spec_dump_uint(((*self).interrupting_ability_id->0).0 as nat)) + u3);
                        lemma_regroup_comma_first(b2, spec_dump_uint(((*self).interrupting_ability_id->0).0 as nat), c0, u3, out@);
                        assert(out@ == b2 + u2);
                        let u1 = seq![','] + ((spec_dump_uint((*self).cast_id.0 as nat)) + u2);
                        lemma_regroup_comma_first(b1, spec_dump_uint((*self).cast_id.0 as nat), b2, u2, out@);
                        assert(out@ == b1 + u1);
                        let u0 = (EndCastReason::spec_name((*self).reason)) + u1;
                        lemma_regroup_head(b0, EndCastReason::spec_name((*self).reason), b1, u1, out@);
                        assert(out@ == b0 + u0);
                        assert(out@ == b0 + spec_dump_event_end_cast((*self)));
                    } else {
                        assert(b1 == b0 + (EndCastReason::spec_name((*self).reason)));
                        assert(b2 == (b1 + seq![',']) + (spec_dump_uint((*self).cast_id.0 as nat)));
                        let c0 = (b2 + seq![',']) + (spec_dump_uint(((*self).interrupting_ability_id->0).0 as nat));
                        let c1 = (c0 + seq![',']) + (spec_dump_uint(((*self).interrupting_unit_id->0).0 as nat));
                        assert(out@ == c1);
                        let u3 = seq![','] + (spec_dump_uint(((*self).interrupting_unit_id->0).0 as nat));
                        lemma_regroup_last(c0, spec_dump_uint(((*self).interrupting_unit_id->0).0 as nat), out@);
                        assert(out@ == c0 + u3);
                        let u2 = seq![','] + ((spec_dump_uint(((*self).interrupting_ability_id->0).0 as nat)) + u3);
                        lemma_regroup_comma_first(b2, spec_dump_uint(((*self).interrupting_ability_id->0).0 as nat), c0, u3, out@);
                        assert(out@ == b2 + u2);
                        let u1 = seq![','] + ((spec_dump_uint((*self).cast_id.0 as nat)) + u2);
                        lemma_regroup_comma_first(b1, spec_dump_uint((*self).cast_id.0 as nat), b2, u2, out@);
                        assert(out@ == b1 + u1);
                        let u0 = (EndCastReason::spec_name((*self).reason)) + u1;
                        lemma_regroup_head(b0, EndCastReason::spec_name((*self).reason), b1, u1, out@);
                        assert(out@ == b0 + u0);
                        assert(((spec_dump_uint(((*self).interrupting_unit_id->0).0 as nat)) + (if (*self).unknown_field_4 is Some { (seq![','] + (spec_dump_uint(((*self).unknown_field_4->0).0 as nat))) } else { Seq::<char>::empty() })) =~= (spec_dump_uint(((*self).interrupting_unit_id->0).0 as nat)));
                        assert(out@ == b0 + spec_dump_event_end_cast((*self)));
                    }
                } else {
                    assert(b1 == b0 + (EndCastReason::spec_name((*self).reason)));
                    assert(b2 == (b1 + seq![',']) + (spec_dump_uint((*self).cast_id.0 as nat)));
                    let c0 = (b2 + seq![',']) + (spec_dump_uint(((*self).interrupting_ability_id->0).0 as nat));
                    assert(out@ == c0);
                    let u2 = seq![','] + (spec_dump_uint(((*self).interrupting_ability_id->0).0 as nat));
                    lemma_regroup_last(b2, spec_dump_uint(((*self).interrupting_ability_id->0).0 as nat), out@);
                    assert(out@ == b2 + u2);
                    let u1 = seq![','] + ((spec_dump_uint((*self).cast_id.0 as nat)) + u2);
                    lemma_regroup_comma_first(b1, spec_dump_uint((*self).cast_id.0 as nat), b2, u2, out@);
                    assert(out@ == b1 + u1);
                    let u0 = (EndCastReason::spec_name((*self).reason)) + u1;
                    lemma_regroup_head(b0, EndCastReason::spec_name((*self).reason), b1, u1, out@);
                    assert(out@ == b0 + u0);
                    assert(((spec_dump_uint(((*self).interrupting_ability_id->0).0 as nat)) + (if (*self).interrupting_unit_id is Some { (seq![','] + (spec_dump_uint(((*self).interrupting_unit_id->0).0 as nat) + (if (*self).unknown_field_4 is Some { (seq![','] + (spec_dump_uint(((*self).unknown_field_4->0).0 as nat))) } else { Seq::<char>::empty() }))) } else { Seq::<char>::empty() })) =~= (spec_dump_uint(((*self).interrupting_ability_id->0).0 as nat)));
                    assert(out@ == b0 + spec_dump_event_end_cast((*self)));
                }
            } else {
                assert(b1 == b0 + (EndCastReason::spec_name((*self).reason)));
                assert(b2 == (b1 + seq![',']) + (spec_dump_uint((*self).cast_id.0 as nat)));
                assert(out@ == b2);
                let u1 = seq![','] + (spec_dump_uint((*self).cast_id.0 as nat));
                lemma_regroup_last(b1, spec_dump_uint((*self).cast_id.0 as nat), out@);
                assert(out@ == b1 + u1);
                let u0 = (EndCastReason::spec_name((*self).reason)) + u1;
                lemma_regroup_head(b0, EndCastReason::spec_name((*self).reason), b1, u1, out@);
                assert(out@ == b0 + u0);
                assert(((spec_dump_uint((*self).cast_id.0 as nat)) + (if (*self).interrupting_ability_id is Some { (seq![','] + (spec_dump_uint(((*self).interrupting_ability_id->0).0 as nat) + (if (*self).interrupting_unit_id is Some { (seq![','] + (spec_dump_uint(((*self).interrupting_unit_id->0).0 as nat) + (if (*self).unknown_field_4 is Some { (seq![','] + (spec_dump_uint(((*self).unknown_field_4->0).0 as nat))) } else { Seq::<char>::empty() }))) } else { Seq::<char>::empty() }))) } else { Seq::<char>::empty() })) =~= (spec_dump_uint((*self).cast_id.0 as nat)));
                assert(out@ == b0 + spec_dump_event_end_cast((*self)));
            }
        }
    }
}

/// Parsing the dumped record yields the record.
#[verifier::rlimit(100)]
pub proof fn lemma_parse_event_end_cast_roundtrip(m: EventEndCast)
    requires
        event_end_cast_wf(m),
    ensures
        spec_parse_event_end_cast(spec_dump_event_end_cast(m)) == Ok::<(EventEndCast, Seq<char>), Error>((m, Seq::<char>::empty())),
{
    let rest = Seq::<char>::empty();
    assert(spec_dump_event_end_cast(m) =~= spec_dump_event_end_cast(m) + rest);
    if m.interrupting_ability_id is Some {
        if m.interrupting_unit_id is Some {
            if m.unknown_field_4 is Some {
                let s4 = spec_dump_uint((m.unknown_field_4->0).0 as nat) + rest;
                let s3 = spec_dump_uint((m.interrupting_unit_id->0).0 as nat) + (seq![','] + s4);
                let s2 = spec_dump_uint((m.interrupting_ability_id->0).0 as nat) + (seq![','] + s3);
                let s1 = spec_dump_uint(m.cast_id.0 as nat) + (seq![','] + s2);
                let s0 = EndCastReason::spec_name(m.reason) + (seq![','] + s1);
                lemma_comma_chop(s1);
                EndCastReason::lemma_parse_roundtrip(m.reason, seq![','] + s1);
                lemma_comma_chop(s2);
                lemma_parse_uint_roundtrip(m.cast_id.0 as nat, u64::MAX as nat, seq![','] + s2);
                lemma_comma_chop(s3);
                lemma_parse_opt_uint_some((m.interrupting_ability_id->0).0 as nat, u64::MAX as nat, seq![','] + s3);
                lemma_comma_chop(s4);
                lemma_parse_opt_uint_some((m.interrupting_unit_id->0).0 as nat, u64::MAX as nat, seq![','] + s4);
                lemma_parse_opt_uint_some((m.unknown_field_4->0).0 as nat, u64::MAX as nat, rest);
                let v4 = spec_dump_uint((m.unknown_field_4->0).0 as nat);
                assert(v4 + rest == s4);
                let v3 = spec_dump_uint((m.interrupting_unit_id->0).0 as nat) + (seq![','] + v4);
                lemma_shift_rest(spec_dump_uint((m.interrupting_unit_id->0).0 as nat), v4, s4, rest);
                assert(v3 + rest == s3);
                let v2 = spec_dump_uint((m.interrupting_ability_id->0).0 as nat) + (seq![','] + v3);
                lemma_shift_rest(spec_dump_uint((m.interrupting_ability_id->0).0 as nat), v3, s3, rest);
                assert(v2 + rest == s2);
                let v1 = spec_dump_uint(m.cast_id.0 as nat) + (seq![','] + v2);
                lemma_shift_rest(spec_dump_uint(m.cast_id.0 as nat), v2, s2, rest);
                assert(v1 + rest == s1);
                let v0 = EndCastReason::spec_name(m.reason) + (seq![','] + v1);
                lemma_shift_rest(EndCastReason::spec_name(m.reason), v1, s1, rest);
                assert(v0 + rest == s0);
                assert(spec_dump_event_end_cast(m) =~= v0);
                assert(spec_dump_event_end_cast(m) + rest == s0);
            } else {
                let s3 = spec_dump_uint((m.interrupting_unit_id->0).0 as nat) + rest;
                let s2 = spec_dump_uint((m.interrupting_ability_id->0).0 as nat) + (seq![','] + s3);
                let s1 = spec_dump_uint(m.cast_id.0 as nat) + (seq![','] + s2);
                let s0 = EndCastReason::spec_name(m.reason) + (seq![','] + s1);
                lemma_comma_chop(s1);
                EndCastReason::lemma_parse_roundtrip(m.reason, seq![','] + s1);
                lemma_comma_chop(s2);
                lemma_parse_uint_roundtrip(m.cast_id.0 as nat, u64::MAX as nat, seq![','] + s2);
                lemma_comma_chop(s3);
                lemma_parse_opt_uint_some((m.interrupting_ability_id->0).0 as nat, u64::MAX as nat, seq![','] + s3);
                lemma_parse_opt_uint_some((m.interrupting_unit_id->0).0 as nat, u64::MAX as nat, rest);
                let v3 = spec_dump_uint((m.interrupting_unit_id->0).0 as nat);
                assert(v3 + rest == s3);
                let v2 = spec_dump_uint((m.interrupting_ability_id->0).0 as nat) + (seq![','] + v3);
                lemma_shift_rest(spec_dump_uint((m.interrupting_ability_id->0).0 as nat), v3, s3, rest);
                assert(v2 + rest == s2);
                let v1 = spec_dump_uint(m.cast_id.0 as nat) + (seq![','] + v2);
                lemma_shift_rest(spec_dump_uint(m.cast_id.0 as nat), v2, s2, rest);
                assert(v1 + rest == s1);
                let v0 = EndCastReason::spec_name(m.reason) + (seq![','] + v1);
                lemma_shift_rest(EndCastReason::spec_name(m.reason), v1, s1, rest);
                assert(v0 + rest == s0);
                assert(spec_dump_event_end_cast(m) =~= v0);
                assert(spec_dump_event_end_cast(m) + rest == s0);
            }
        } else {
            assert(m.unknown_field_4 is None);
            let s2 = spec_dump_uint((m.interrupting_ability_id->0).0 as nat) + rest;
            let s1 = spec_dump_uint(m.cast_id.0 as nat) + (seq![','] + s2);
            let s0 = EndCastReason::spec_name(m.reason) + (seq![','] + s1);
            lemma_comma_chop(s1);
            EndCastReason::lemma_parse_roundtrip(m.reason, seq![','] + s1);
            lemma_comma_chop(s2);
            lemma_parse_uint_roundtrip(m.cast_id.0 as nat, u64::MAX as nat, seq![','] + s2);
            lemma_parse_opt_uint_some((m.interrupting_ability_id->0).0 as nat, u64::MAX as nat, rest);
            let v2 = spec_dump_uint((m.interrupting_ability_id->0).0 as nat);
            assert(v2 + rest == s2);
            let v1 = spec_dump_uint(m.cast_id.0 as nat) + (seq![','] + v2);
            lemma_shift_rest(spec_dump_uint(m.cast_id.0 as nat), v2, s2, rest);
            assert(v1 + rest == s1);
            let v0 = EndCastReason::spec_name(m.reason) + (seq![','] + v1);
            lemma_shift_rest(EndCastReason::spec_name(m.reason), v1, s1, rest);
            assert(v0 + rest == s0);
            assert(spec_dump_event_end_cast(m) =~= v0);
            assert(spec_dump_event_end_cast(m) + rest == s0);
        }
    } else {
        assert(m.interrupting_unit_id is None);
        assert(m.unknown_field_4 is None);
        let s1 = spec_dump_uint(m.cast_id.0 as nat) + rest;
        let s0 = EndCastReason::spec_name(m.reason) + (seq![','] + s1);
        lemma_comma_chop(s1);
        EndCastReason::lemma_parse_roundtrip(m.reason, seq![','] + s1);
        lemma_parse_uint_roundtrip(m.cast_id.0 as nat, u64::MAX as nat, rest);
        let v1 = spec_dump_uint(m.cast_id.0 as nat);
        assert(v1 + rest == s1);
        let v0 = EndCastReason::spec_name(m.reason) + (seq![','] + v1);
        lemma_shift_rest(EndCastReason::spec_name(m.reason), v1, s1, rest);
        assert(v0 + rest == s0);
        assert(spec_dump_event_end_cast(m) =~= v0);
        assert(spec_dump_event_end_cast(m) + rest == s0);
    }
}

/// A trial ended.
#[derive(Debug, Clone, Copy, PartialEq, Eq, Structural)]
pub struct EventEndTrial {
    pub id: Id,
    pub duration: EsoDuration,
    pub success: bool,
    pub final_score: Attribute,
    pub final_vitality_bonus: Attribute,
}

impl EventEndTrial {
    pub fn id(&self) -> (r: &Id)
        ensures
            r == &self.id,
    {
        &self.id
    }

    pub fn duration(&self) -> (r: &EsoDuration)
        ensures
            r == &self.duration,
    {
        &self.duration
    }

    pub fn success(&self) -> (r: &bool)
        ensures
            r == &self.success,
    {
        &self.success
    }

    pub fn final_score(&self) -> (r: &Attribute)
        ensures
            r == &self.final_score,
    {
        &self.final_score
    }

    pub fn final_vitality_bonus(&self) -> (r: &Attribute)
        ensures
            r == &self.final_vitality_bonus,
    {
        &self.final_vitality_bonus
    }

}

/// The record round-trips through the wire grammar.
pub open spec fn event_end_trial_wf(m: EventEndTrial) -> bool {
    true
}

/// Wire text of the record, fields comma separated.
pub open spec fn spec_dump_event_end_trial(m: EventEndTrial) -> Seq<char> {
    spec_dump_uint(m.id.0 as nat) + (seq![','] + (spec_dump_uint(m.duration.0 as nat) + (seq![','] + (spec_dump_bool(m.success) + (seq![','] + (spec_dump_uint(m.final_score as nat) + (seq![','] + (spec_dump_uint(m.final_vitality_bonus as nat)))))))))
}

/// Parses the record's fields in declaration order.
pub open spec fn spec_parse_event_end_trial(s: Seq<char>) -> Result<(EventEndTrial, Seq<char>), Error> {
    match spec_parse_uint(s, u64::MAX as nat) {
        Err(e) => Err(e),
        Ok((v_id, s1)) => {
            match spec_parse_uint(s1, u64::MAX as nat) {
                Err(e) => Err(e),
                Ok((v_duration, s2)) => {
                    match spec_parse_bool(s2) {
                        Err(e) => Err(e),
                        Ok((v_success, s3)) => {
                            match spec_parse_uint(s3, u32::MAX as nat) {
                                Err(e) => Err(e),
                                Ok((v_final_score, s4)) => {
                                    match spec_parse_uint(s4, u32::MAX as nat) {
                                        Err(e) => Err(e),
                                        Ok((v_final_vitality_bonus, s5)) => {
                                            let m = EventEndTrial {
                                                id: Id(v_id as u64),
                                                duration: EsoDuration(v_duration as u64),
                                                success: v_success,
                                                final_score: v_final_score as u32,
                                                final_vitality_bonus: v_final_vitality_bonus as u32,
                                            };
                                            Ok((m, s5))
                                        },
                                    }
                                },
                            }
                        },
                    }
                },
            }
        },
    }
}

/// Reads one `EventEndTrial` from the line.
pub fn parse_event_end_trial(r: &mut EsoLogReaderLine) -> (res: Result<EventEndTrial, Error>)
    requires
        old(r).wf(),
    ensures
        final(r).wf(),
        match spec_parse_event_end_trial(old(r).remaining()) {
            Ok((m, rest)) => res == Ok::<EventEndTrial, Error>(m) && final(r).remaining() == rest,
            Err(e) => res == Err::<EventEndTrial, Error>(e),
        },
{
    let id = Id(match r.read_uint(u64::MAX) { Ok(v) => v, Err(e) => { return Err(e); } });
    let duration = EsoDuration(match r.read_uint(u64::MAX) { Ok(v) => v, Err(e) => { return Err(e); } });
    let success = match parse_bool(r) { Ok(v) => v, Err(e) => { return Err(e); } };
    let final_score = (match r.read_uint(u32::MAX as u64) { Ok(v) => v, Err(e) => { return Err(e); } }) as u32;
    let final_vitality_bonus = (match r.read_uint(u32::MAX as u64) { Ok(v) => v, Err(e) => { return Err(e); } }) as u32;
    Ok(EventEndTrial {
        id,
        duration,
        success,
        final_score,
        final_vitality_bonus,
    })
}

impl EventEndTrial {
    /// Appends this record's wire text.
    #[verifier::rlimit(100)]
    pub fn append_to(&self, out: &mut String)
        ensures
            final(out)@ == old(out)@ + spec_dump_event_end_trial(*self),
    {
        proof {
            reveal_strlit(",");
            assert(","@ =~= seq![',']);
        }
        let ghost b0 = out@;
        append_uint(out, self.id.0);
        let ghost b1 = out@;
        out.append(",");
        append_uint(out, self.duration.0);
        let ghost b2 = out@;
        out.append(",");
        append_bool(out, self.success);
        let ghost b3 = out@;
        out.append(",");
        append_uint(out, self.final_score as u64);
        let ghost b4 = out@;
        out.append(",");
        append_uint(out, self.final_vitality_bonus as u64);
        let ghost b5 = out@;
        proof {
            assert(b1 == b0 + (spec_dump_uint((*self).id.0 as nat)));
            assert(b2 == (b1 + seq![',']) + (spec_dump_uint((*self).duration.0 as nat)));
            assert(b3 == (b2 + seq![',']) + (spec_dump_bool((*self).success)));
            assert(b4 == (b3 + seq![',']) + (spec_dump_uint((*self).final_score as nat)));
            assert(b5 == (b4 + seq![',']) + (spec_dump_uint((*self).final_vitality_bonus as nat)));
            assert(out@ == b5);
            let u4 = seq![','] + (spec_dump_uint((*self).final_vitality_bonus as nat));
            lemma_regroup_last(b4, spec_dump_uint((*self).final_vitality_bonus as nat), out@);
            assert(out@ == b4 + u4);
            let u3 = seq![','] + ((spec_dump_uint((*self).final_score as nat)) + u4);
            lemma_regroup_comma_first(b3, spec_dump_uint((*self).final_score as nat), b4, u4, out@);
            assert(out@ == b3 + u3);
            let u2 = seq![','] + ((spec_dump_bool((*self).success)) + u3);
            lemma_regroup_comma_first(b2, spec_dump_bool((*self).success), b3, u3, out@);
            assert(out@ == b2 + u2);
            let u1 = seq![','] + ((spec_dump_uint((*self).duration.0 as nat)) + u2);
            lemma_regroup_comma_first(b1, spec_dump_uint((*self).duration.0 as nat), b2, u2, out@);
            assert(out@ == b1 + u1);
            let u0 = (spec_dump_uint((*self).id.0 as nat)) + u1;
            lemma_regroup_head(b0, spec_dump_uint((*self).id.0 as nat), b1, u1, out@);
            assert(out@ == b0 + u0);
            assert(out@ == b0 + spec_dump_event_end_trial((*self)));
        }
    }
}

/// Parsing the dumped record yields the record.
#[verifier::rlimit(100)]
pub proof fn lemma_parse_event_end_trial_roundtrip(m: EventEndTrial)
    requires
        event_end_trial_wf(m),
    ensures
        spec_parse_event_end_trial(spec_dump_event_end_trial(m)) == Ok::<(EventEndTrial, Seq<char>), Error>((m, Seq::<char>::empty())),
{
    let rest = Seq::<char>::empty();
    assert(spec_dump_event_end_trial(m) =~= spec_dump_event_end_trial(m) + rest);
    let s4 = spec_dump_uint(m.final_vitality_bonus as nat) + rest;
    let s3 = spec_dump_uint(m.final_score as nat) + (seq![','] + s4);
    let s2 = spec_dump_bool(m.success) + (seq![','] + s3);
    let s1 = spec_dump_uint(m.duration.0 as nat) + (seq![','] + s2);
    let s0 = spec_dump_uint(m.id.0 as nat) + (seq![','] + s1);
    lemma_comma_chop(s1);
    lemma_parse_uint_roundtrip(m.id.0 as nat, u64::MAX as nat, seq![','] + s1);
    lemma_comma_chop(s2);
    lemma_parse_uint_roundtrip(m.duration.0 as nat, u64::MAX as nat, seq![','] + s2);
    lemma_comma_chop(s3);
    lemma_parse_bool_roundtrip(m.success, seq![','] + s3);
    lemma_comma_chop(s4);
    lemma_parse_uint_roundtrip(m.final_score as nat, u32::MAX as nat, seq![','] + s4);
    lemma_parse_uint_roundtrip(m.final_vitality_bonus as nat, u32::MAX as nat, rest);
    let v4 = spec_dump_uint(m.final_vitality_bonus as nat);
    assert(v4 + rest == s4);
    let v3 = spec_dump_uint(m.final_score as nat) + (seq![','] + v4);
    lemma_shift_rest(spec_dump_uint(m.final_score as nat), v4, s4, rest);
    assert(v3 + rest == s3);
    let v2 = spec_dump_bool(m.success) + (seq![','] + v3);
    lemma_shift_rest(spec_dump_bool(m.success), v3, s3, rest);
    assert(v2 + rest == s2);
    let v1 = spec_dump_uint(m.duration.0 as nat) + (seq![','] + v2);
    lemma_shift_rest(spec_dump_uint(m.duration.0 as nat), v2, s2, rest);
    assert(v1 + rest == s1);
    let v0 = spec_dump_uint(m.id.0 as nat) + (seq![','] + v1);
    lemma_shift_rest(spec_dump_uint(m.id.0 as nat), v1, s1, rest);
    assert(v0 + rest == s0);
    assert(spec_dump_event_end_trial(m) =~= v0);
    assert(spec_dump_event_end_trial(m) + rest == s0);
}

/// Periodic health regeneration ticked on a unit.
#[derive(Debug, Clone, Copy, PartialEq, Eq, Structural)]
pub struct EventHealthRegen {
    pub effective_regen: Attribute,
    pub unit: UnitState,
}

impl EventHealthRegen {
    pub fn effective_regen(&self) -> (r: &Attribute)
        ensures
            r == &self.effective_regen,
    {
        &self.effective_regen
    }

    pub fn unit(&self) -> (r: &UnitState)
        ensures
            r == &self.unit,
    {
        &self.unit
    }

}

/// The record round-trips through the wire grammar.
pub open spec fn event_health_regen_wf(m: EventHealthRegen) -> bool {
    unit_state_wf(m.unit)
}

/// Wire text of the record, fields comma separated.
pub open spec fn spec_dump_event_health_regen(m: EventHealthRegen) -> Seq<char> {
    spec_dump_uint(m.effective_regen as nat) + (seq![','] + (spec_dump_unit_state(m.unit)))
}

/// Parses the record's fields in declaration order.
pub open spec fn spec_parse_event_health_regen(s: Seq<char>) -> Result<(EventHealthRegen, Seq<char>), Error> {
    match spec_parse_uint(s, u32::MAX as nat) {
        Err(e) => Err(e),
        Ok((v_effective_regen, s1)) => {
            match spec_parse_unit_state(s1) {
                Err(e) => Err(e),
                Ok((v_unit, s2)) => {
                    let m = EventHealthRegen {
                        effective_regen: v_effective_regen as u32,
                        unit: v_unit,
                    };
                    Ok((m, s2))
                },
            }
        },
    }
}

/// Reads one `EventHealthRegen` from the line.
pub fn parse_event_health_regen(r: &mut EsoLogReaderLine) -> (res: Result<EventHealthRegen, Error>)
    requires
        old(r).wf(),
    ensures
        final(r).wf(),
        match spec_parse_event_health_regen(old(r).remaining()) {
            Ok((m, rest)) => res == Ok::<EventHealthRegen, Error>(m) && final(r).remaining() == rest,
            Err(e) => res == Err::<EventHealthRegen, Error>(e),
        },
{
    let effective_regen = (match r.read_uint(u32::MAX as u64) { Ok(v) => v, Err(e) => { return Err(e); } }) as u32;
    let unit = match parse_unit_state(r) { Ok(v) => v, Err(e) => { return Err(e); } };
    Ok(EventHealthRegen {
        effective_regen,
        unit,
    })
}

impl EventHealthRegen {
    /// Appends this record's wire text.
    #[verifier::rlimit(100)]
    pub fn append_to(&self, out: &mut String)
        ensures
            final(out)@ == old(out)@ + spec_dump_event_health_regen(*self),
    {
        proof {
            reveal_strlit(",");
            assert(","@ =~= seq![',']);
        }
        let ghost b0 = out@;
        append_uint(out, self.effective_regen as u64);
        let ghost b1 = out@;
        out.append(",");
        self.unit.append_to(out);
        let ghost b2 = out@;
        proof {
            assert(b1 == b0 + (spec_dump_uint((*self).effective_regen as nat)));
            assert(b2 == (b1 + seq![',']) + (spec_dump_unit_state((*self).unit)));
            assert(out@ == b2);
            let u1 = seq![','] + (spec_dump_unit_state((*self).unit));
            lemma_regroup_last(b1, spec_dump_unit_state((*self).unit), out@);
            assert(out@ == b1 + u1);
            let u0 = (spec_dump_uint((*self).effective_regen as nat)) + u1;
            lemma_regroup_head(b0, spec_dump_uint((*self).effective_regen as nat), b1, u1, out@);
            assert(out@ == b0 + u0);
            assert(out@ == b0 + spec_dump_event_health_regen((*self)));
        }
    }
}

/// Parsing the dumped record yields the record.
#[verifier::rlimit(100)]
pub proof fn lemma_parse_event_health_regen_roundtrip(m: EventHealthRegen)
    requires
        event_health_regen_wf(m),
    ensures
        spec_parse_event_health_regen(spec_dump_event_health_regen(m)) == Ok::<(EventHealthRegen, Seq<char>), Error>((m, Seq::<char>::empty())),
{
    let rest = Seq::<char>::empty();
    assert(spec_dump_event_health_regen(m) =~= spec_dump_event_health_regen(m) + rest);
    let s1 = spec_dump_unit_state(m.unit) + rest;
    let s0 = spec_dump_uint(m.effective_regen as nat) + (seq![','] + s1);
    lemma_comma_chop(s1);
    lemma_parse_uint_roundtrip(m.effective_regen as nat, u32::MAX as nat, seq![','] + s1);
    lemma_parse_unit_state_roundtrip(m.unit, rest);
    let v1 = spec_dump_unit_state(m.unit);
    assert(v1 + rest == s1);
    let v0 = spec_dump_uint(m.effective_regen as nat) + (seq![','] + v1);
    lemma_shift_rest(spec_dump_uint(m.effective_regen as nat), v1, s1, rest);
    assert(v0 + rest == s0);
    assert(spec_dump_event_health_regen(m) =~= v0);
    assert(spec_dump_event_health_regen(m) + rest == s0);
}

/// The current map changed.
#[derive(Debug, Clone)]
pub struct EventMapInfo {
    pub id: Id,
    pub name: String,
    pub texture_path: String,
}

/// Mathematical image of [`EventMapInfo`].
#[verifier::ext_equal]
pub ghost struct EventMapInfoModel {
    pub id: Id,
    pub name: Seq<char>,
    pub texture_path: Seq<char>,
}

impl View for EventMapInfo {
    type V = EventMapInfoModel;

    open spec fn view(&self) -> EventMapInfoModel {
        EventMapInfoModel {
            id: self.id,
            name: self.name@,
            texture_path: self.texture_path@,
        }
    }
}

impl EventMapInfo {
    pub fn id(&self) -> (r: &Id)
        ensures
            r == &self.id,
    {
        &self.id
    }

    pub fn name(&self) -> (r: &String)
        ensures
            r == &self.name,
    {
        &self.name
    }

    pub fn texture_path(&self) -> (r: &String)
        ensures
            r == &self.texture_path,
    {
        &self.texture_path
    }

}

/// The record round-trips through the wire grammar.
pub open spec fn event_map_info_wf(m: EventMapInfoModel) -> bool {
    &&& str_wf(m.name)
    &&& str_wf(m.texture_path)
}

/// Wire text of the record, fields comma separated.
pub open spec fn spec_dump_event_map_info(m: EventMapInfoModel) -> Seq<char> {
    spec_dump_uint(m.id.0 as nat) + (seq![','] + (m.name + (seq![','] + (m.texture_path))))
}

/// Parses the record's fields in declaration order.
pub open spec fn spec_parse_event_map_info(s: Seq<char>) -> Result<(EventMapInfoModel, Seq<char>), Error> {
    match spec_parse_uint(s, u64::MAX as nat) {
        Err(e) => Err(e),
        Ok((v_id, s1)) => {
            match spec_parse_str(s1) {
                Err(e) => Err(e),
                Ok((v_name, s2)) => {
                    match spec_parse_str(s2) {
                        Err(e) => Err(e),
                        Ok((v_texture_path, s3)) => {
                            let m = EventMapInfoModel {
                                id: Id(v_id as u64),
                                name: v_name,
                                texture_path: v_texture_path,
                            };
                            Ok((m, s3))
                        },
                    }
                },
            }
        },
    }
}

/// Reads one `EventMapInfo` from the line.
pub fn parse_event_map_info(r: &mut EsoLogReaderLine) -> (res: Result<EventMapInfo, Error>)
    requires
        old(r).wf(),
    ensures
        final(r).wf(),
        match spec_parse_event_map_info(old(r).remaining()) {
            Ok((m, rest)) => res is Ok && res->Ok_0@ == m && final(r).remaining() == rest,
            Err(e) => res == Err::<EventMapInfo, Error>(e),
        },
{
    let id = Id(match r.read_uint(u64::MAX) { Ok(v) => v, Err(e) => { return Err(e); } });
    let name = match parse_string(r) { Ok(v) => v, Err(e) => { return Err(e); } };
    let texture_path = match parse_string(r) { Ok(v) => v, Err(e) => { return Err(e); } };
    Ok(EventMapInfo {
        id,
        name,
        texture_path,
    })
}

impl EventMapInfo {
    /// Appends this record's wire text.
    #[verifier::rlimit(100)]
    pub fn append_to(&self, out: &mut String)
        ensures
            final(out)@ == old(out)@ + spec_dump_event_map_info(self@),
    {
        proof {
            reveal_strlit(",");
            assert(","@ =~= seq![',']);
        }
        let ghost b0 = out@;
        append_uint(out, self.id.0);
        let ghost b1 = out@;
        out.append(",");
        append_str(out, self.name.as_str());
        let ghost b2 = out@;
        out.append(",");
        append_str(out, self.texture_path.as_str());
        let ghost b3 = out@;
        proof {
            assert(b1 == b0 + (spec_dump_uint(self@.id.0 as nat)));
            assert(b2 == (b1 + seq![',']) + (self@.name));
            assert(b3 == (b2 + seq![',']) + (self@.texture_path));
            assert(out@ == b3);
            let u2 = seq![','] + (self@.texture_path);
            lemma_regroup_last(b2, self@.texture_path, out@);
            assert(out@ == b2 + u2);
            let u1 = seq![','] + ((self@.name) + u2);
            lemma_regroup_comma_first(b1, self@.name, b2, u2, out@);
            assert(out@ == b1 + u1);
            let u0 = (spec_dump_uint(self@.id.0 as nat)) + u1;
            lemma_regroup_head(b0, spec_dump_uint(self@.id.0 as nat), b1, u1, out@);
            assert(out@ == b0 + u0);
            assert(out@ == b0 + spec_dump_event_map_info(self@));
        }
    }
}

/// Parsing the dumped record yields the record.
#[verifier::rlimit(100)]
pub proof fn lemma_parse_event_map_info_roundtrip(m: EventMapInfoModel)
    requires
        event_map_info_wf(m),
    ensures
        spec_parse_event_map_info(spec_dump_event_map_info(m)) == Ok::<(EventMapInfoModel, Seq<char>), Error>((m, Seq::<char>::empty())),
{
    let rest = Seq::<char>::empty();
    assert(spec_dump_event_map_info(m) =~= spec_dump_event_map_info(m) + rest);
    let s2 = m.texture_path + rest;
    let s1 = m.name + (seq![','] + s2);
    let s0 = spec_dump_uint(m.id.0 as nat) + (seq![','] + s1);
    lemma_comma_chop(s1);
    lemma_parse_uint_roundtrip(m.id.0 as nat, u64::MAX as nat, seq![','] + s1);
    lemma_comma_chop(s2);
    lemma_parse_str_roundtrip(m.name, seq![','] + s2);
    lemma_parse_str_roundtrip(m.texture_path, rest);
    let v2 = m.texture_path;
    assert(v2 + rest == s2);
    let v1 = m.name + (seq![','] + v2);
    lemma_shift_rest(m.name, v2, s2, rest);
    assert(v1 + rest == s1);
    let v0 = spec_dump_uint(m.id.0 as nat) + (seq![','] + v1);
    lemma_shift_rest(spec_dump_uint(m.id.0 as nat), v1, s1, rest);
    assert(v0 + rest == s0);
    assert(spec_dump_event_map_info(m) =~= v0);
    assert(spec_dump_event_map_info(m) + rest == s0);
}

/// Trial bookkeeping seen at log start.
#[derive(Debug, Clone, Copy, PartialEq, Eq, Structural)]
pub struct EventTrialInit {
    pub id: Id,
    pub in_progress: bool,
    pub completed: bool,
    pub start_time: EsoDuration,
    pub duration: EsoDuration,
    pub success: bool,
    pub final_score: Attribute,
}

impl EventTrialInit {
    pub fn id(&self) -> (r: &Id)
        ensures
            r == &self.id,
    {
        &self.id
    }

    pub fn in_progress(&self) -> (r: &bool)
        ensures
            r == &self.in_progress,
    {
        &self.in_progress
    }

    pub fn completed(&self) -> (r: &bool)
        ensures
            r == &self.completed,
    {
        &self.completed
    }

    pub fn start_time(&self) -> (r: &EsoDuration)
        ensures
            r == &self.start_time,
    {
        &self.start_time
    }

    pub fn duration(&self) -> (r: &EsoDuration)
        ensures
            r == &self.duration,
    {
        &self.duration
    }

    pub fn success(&self) -> (r: &bool)
        ensures
            r == &self.success,
    {
        &self.success
    }

    pub fn final_score(&self) -> (r: &Attribute)
        ensures
            r == &self.final_score,
    {
        &self.final_score
    }

}

/// The record round-trips through the wire grammar.
pub open spec fn event_trial_init_wf(m: EventTrialInit) -> bool {
    true
}

/// Wire text of the record, fields comma separated.
pub open spec fn spec_dump_event_trial_init(m: EventTrialInit) -> Seq<char> {
    spec_dump_uint(m.id.0 as nat) + (seq![','] + (spec_dump_bool(m.in_progress) + (seq![','] + (spec_dump_bool(m.completed) + (seq![','] + (spec_dump_uint(m.start_time.0 as nat) + (seq![','] + (spec_dump_uint(m.duration.0 as nat) + (seq![','] + (spec_dump_bool(m.success) + (seq![','] + (spec_dump_uint(m.final_score as nat)))))))))))))
}

/// Parses the record's fields in declaration order.
pub open spec fn spec_parse_event_trial_init(s: Seq<char>) -> Result<(EventTrialInit, Seq<char>), Error> {
    match spec_parse_uint(s, u64::MAX as nat) {
        Err(e) => Err(e),
        Ok((v_id, s1)) => {
            match spec_parse_bool(s1) {
                Err(e) => Err(e),
                Ok((v_in_progress, s2)) => {
                    match spec_parse_bool(s2) {
                        Err(e) => Err(e),
                        Ok((v_completed, s3)) => {
                            match spec_parse_uint(s3, u64::MAX as nat) {
                                Err(e) => Err(e),
                                Ok((v_start_time, s4)) => {
                                    match spec_parse_uint(s4, u64::MAX as nat) {
                                        Err(e) => Err(e),
                                        Ok((v_duration, s5)) => {
                                            match spec_parse_bool(s5) {
                                                Err(e) => Err(e),
                                                Ok((v_success, s6)) => {
                                                    match spec_parse_uint(s6, u32::MAX as nat) {
                                                        Err(e) => Err(e),
                                                        Ok((v_final_score, s7)) => {
                                                            let m = EventTrialInit {
                                                                id: Id(v_id as u64),
                                                                in_progress: v_in_progress,
                                                                completed: v_completed,
                                                                start_time: EsoDuration(v_start_time as u64),
                                                                duration: EsoDuration(v_duration as u64),
                                                                success: v_success,
                                                                final_score: v_final_score as u32,
                                                            };
                                                            Ok((m, s7))
                                                        },
                                                    }
                                                },
                                            }
                                        },
                                    }
                                },
                            }
                        },
                    }
                },
            }
        },
    }
}

/// Reads one `EventTrialInit` from the line.
pub fn parse_event_trial_init(r: &mut EsoLogReaderLine) -> (res: Result<EventTrialInit, Error>)
    requires
        old(r).wf(),
    ensures
        final(r).wf(),
        match spec_parse_event_trial_init(old(r).remaining()) {
            Ok((m, rest)) => res == Ok::<EventTrialInit, Error>(m) && final(r).remaining() == rest,
            Err(e) => res == Err::<EventTrialInit, Error>(e),
        },
{
    let id = Id(match r.read_uint(u64::MAX) { Ok(v) => v, Err(e) => { return Err(e); } });
    let in_progress = match parse_bool(r) { Ok(v) => v, Err(e) => { return Err(e); } };
    let completed = match parse_bool(r) { Ok(v) => v, Err(e) => { return Err(e); } };
    let start_time = EsoDuration(match r.read_uint(u64::MAX) { Ok(v) => v, Err(e) => { return Err(e); } });
    let duration = EsoDuration(match r.read_uint(u64::MAX) { Ok(v) => v, Err(e) => { return Err(e); } });
    let success = match parse_bool(r) { Ok(v) => v, Err(e) => { return Err(e); } };
    let final_score = (match r.read_uint(u32::MAX as u64) { Ok(v) => v, Err(e) => { return Err(e); } }) as u32;
    Ok(EventTrialInit {
        id,
        in_progress,
        completed,
        start_time,
        duration,
        success,
        final_score,
    })
}

impl EventTrialInit {
    /// Appends this record's wire text.
    #[verifier::rlimit(100)]
    pub fn append_to(&self, out: &mut String)
        ensures
            final(out)@ == old(out)@ + spec_dump_event_trial_init(*self),
    {
        proof {
            reveal_strlit(",");
            assert(","@ =~= seq![',']);
        }
        let ghost b0 = out@;
        append_uint(out, self.id.0);
        let ghost b1 = out@;
        out.append(",");
        append_bool(out, self.in_progress);
        let ghost b2 = out@;
        out.append(",");
        append_bool(out, self.completed);
        let ghost b3 = out@;
        out.append(",");
        append_uint(out, self.start_time.0);
        let ghost b4 = out@;
        out.append(",");
        append_uint(out, self.duration.0);
        let ghost b5 = out@;
        out.append(",");
        append_bool(out, self.success);
        let ghost b6 = out@;
        out.append(",");
        append_uint(out, self.final_score as u64);
        let ghost b7 = out@;
        proof {
            assert(b1 == b0 + (spec_dump_uint((*self).id.0 as nat)));
            assert(b2 == (b1 + seq![',']) + (spec_dump_bool((*self).in_progress)));
            assert(b3 == (b2 + seq![',']) + (spec_dump_bool((*self).completed)));
            assert(b4 == (b3 + seq![',']) + (spec_dump_uint((*self).start_time.0 as nat)));
            assert(b5 == (b4 + seq![',']) + (spec_dump_uint((*self).duration.0 as nat)));
            assert(b6 == (b5 + seq![',']) + (spec_dump_bool((*self).success)));
            assert(b7 == (b6 + seq![',']) + (spec_dump_uint((*self).final_score as nat)));
            assert(out@ == b7);
            let u6 = seq![','] + (spec_dump_uint((*self).final_score as nat));
            lemma_regroup_last(b6, spec_dump_uint((*self).final_score as nat), out@);
            assert(out@ == b6 + u6);
            let u5 = seq![','] + ((spec_dump_bool((*self).success)) + u6);
            lemma_regroup_comma_first(b5, spec_dump_bool((*self).success), b6, u6, out@);
            assert(out@ == b5 + u5);
            let u4 = seq![','] + ((spec_dump_uint((*self).duration.0 as nat)) + u5);
            lemma_regroup_comma_first(b4, spec_dump_uint((*self).duration.0 as nat), b5, u5, out@);
            assert(out@ == b4 + u4);
            let u3 = seq![','] + ((spec_dump_uint((*self).start_time.0 as nat)) + u4);
            lemma_regroup_comma_first(b3, spec_dump_uint((*self).start_time.0 as nat), b4, u4, out@);
            assert(out@ == b3 + u3);
            let u2 = seq![','] + ((spec_dump_bool((*self).completed)) + u3);
            lemma_regroup_comma_first(b2, spec_dump_bool((*self).completed), b3, u3, out@);
            assert(out@ == b2 + u2);
            let u1 = seq![','] + ((spec_dump_bool((*self).in_progress)) + u2);
            lemma_regroup_comma_first(b1, spec_dump_bool((*self).in_progress), b2, u2, out@);
            assert(out@ == b1 + u1);
            let u0 = (spec_dump_uint((*self).id.0 as nat)) + u1;
            lemma_regroup_head(b0, spec_dump_uint((*self).id.0 as nat), b1, u1, out@);
            assert(out@ == b0 + u0);
            assert(out@ == b0 + spec_dump_event_trial_init((*self)));
        }
    }
}

/// Parsing the dumped record yields the record.
#[verifier::rlimit(100)]
pub proof fn lemma_parse_event_trial_init_roundtrip(m: EventTrialInit)
    requires
        event_trial_init_wf(m),
    ensures
        spec_parse_event_trial_init(spec_dump_event_trial_init(m)) == Ok::<(EventTrialInit, Seq<char>), Error>((m, Seq::<char>::empty())),
{
    let rest = Seq::<char>::empty();
    assert(spec_dump_event_trial_init(m) =~= spec_dump_event_trial_init(m) + rest);
    let s6 = spec_dump_uint(m.final_score as nat) + rest;
    let s5 = spec_dump_bool(m.success) + (seq![','] + s6);
    let s4 = spec_dump_uint(m.duration.0 as nat) + (seq![','] + s5);
    let s3 = spec_dump_uint(m.start_time.0 as nat) + (seq![','] + s4);
    let s2 = spec_dump_bool(m.completed) + (seq![','] + s3);
    let s1 = spec_dump_bool(m.in_progress) + (seq![','] + s2);
    let s0 = spec_dump_uint(m.id.0 as nat) + (seq![','] + s1);
    lemma_comma_chop(s1);
    lemma_parse_uint_roundtrip(m.id.0 as nat, u64::MAX as nat, seq![','] + s1);
    lemma_comma_chop(s2);
    lemma_parse_bool_roundtrip(m.in_progress, seq![','] + s2);
    lemma_comma_chop(s3);
    lemma_parse_bool_roundtrip(m.completed, seq![','] + s3);
    lemma_comma_chop(s4);
    lemma_parse_uint_roundtrip(m.start_time.0 as nat, u64::MAX as nat, seq![','] + s4);
    lemma_comma_chop(s5);
    lemma_parse_uint_roundtrip(m.duration.0 as nat, u64::MAX as nat, seq![','] + s5);
    lemma_comma_chop(s6);
    lemma_parse_bool_roundtrip(m.success, seq![','] + s6);
    lemma_parse_uint_roundtrip(m.final_score as nat, u32::MAX as nat, rest);
    let v6 = spec_dump_uint(m.final_score as nat);
    assert(v6 + rest == s6);
    let v5 = spec_dump_bool(m.success) + (seq![','] + v6);
    lemma_shift_rest(spec_dump_bool(m.success), v6, s6, rest);
    assert(v5 + rest == s5);
    let v4 = spec_dump_uint(m.duration.0 as nat) + (seq![','] + v5);
    lemma_shift_rest(spec_dump_uint(m.duration.0 as nat), v5, s5, rest);
    assert(v4 + rest == s4);
    let v3 = spec_dump_uint(m.start_time.0 as nat) + (seq![','] + v4);
    lemma_shift_rest(spec_dump_uint(m.start_time.0 as nat), v4, s4, rest);
    assert(v3 + rest == s3);
    let v2 = spec_dump_bool(m.completed) + (seq![','] + v3);
    lemma_shift_rest(spec_dump_bool(m.completed), v3, s3, rest);
    assert(v2 + rest == s2);
    let v1 = spec_dump_bool(m.in_progress) + (seq![','] + v2);
    lemma_shift_rest(spec_dump_bool(m.in_progress), v2, s2, rest);
    assert(v1 + rest == s1);
    let v0 = spec_dump_uint(m.id.0 as nat) + (seq![','] + v1);
    lemma_shift_rest(spec_dump_uint(m.id.0 as nat), v1, s1, rest);
    assert(v0 + rest == s0);
    assert(spec_dump_event_trial_init(m) =~= v0);
    assert(spec_dump_event_trial_init(m) + rest == s0);
}

/// A unit entered the world.
#[derive(Debug, Clone)]
pub struct EventUnitAdded {
    pub unit_id: UnitId,
    pub unit_type: UnitType,
    pub is_local_player: bool,
    pub player_per_session_id: Id,
    pub monster_id: MonsterId,
    pub is_boss: bool,
    pub class_id: ClassId,
    pub race_id: RaceId,
    pub name: String,
    pub display_name: String,
    pub character_id: Id,
    pub level: Attribute,
    pub champion_points: Attribute,
    pub owner_id: UnitId,
    pub reaction: UnitReactionType,
    pub is_grouped_with_local_player: bool,
}

/// Mathematical image of [`EventUnitAdded`].
#[verifier::ext_equal]
pub ghost struct EventUnitAddedModel {
    pub unit_id: UnitId,
    pub unit_type: UnitType,
    pub is_local_player: bool,
    pub player_per_session_id: Id,
    pub monster_id: MonsterId,
    pub is_boss: bool,
    pub class_id: ClassId,
    pub race_id: RaceId,
    pub name: Seq<char>,
    pub display_name: Seq<char>,
    pub character_id: Id,
    pub level: u32,
    pub champion_points: u32,
    pub owner_id: UnitId,
    pub reaction: UnitReactionType,
    pub is_grouped_with_local_player: bool,
}

impl View for EventUnitAdded {
    type V = EventUnitAddedModel;

    open spec fn view(&self) -> EventUnitAddedModel {
        EventUnitAddedModel {
            unit_id: self.unit_id,
            unit_type: self.unit_type,
            is_local_player: self.is_local_player,
            player_per_session_id: self.player_per_session_id,
            monster_id: self.monster_id,
            is_boss: self.is_boss,
            class_id: self.class_id,
            race_id: self.race_id,
            name: self.name@,
            display_name: self.display_name@,
            character_id: self.character_id,
            level: self.level,
            champion_points: self.champion_points,
            owner_id: self.owner_id,
            reaction: self.reaction,
            is_grouped_with_local_player: self.is_grouped_with_local_player,
        }
    }
}

impl EventUnitAdded {
    pub fn unit_id(&self) -> (r: &UnitId)
        ensures
            r == &self.unit_id,
    {
        &self.unit_id
    }

    pub fn unit_type(&self) -> (r: &UnitType)
        ensures
            r == &self.unit_type,
    {
        &self.unit_type
    }

    pub fn is_local_player(&self) -> (r: &bool)
        ensures
            r == &self.is_local_player,
    {
        &self.is_local_player
    }

    pub fn player_per_session_id(&self) -> (r: &Id)
        ensures
            r == &self.player_per_session_id,
    {
        &self.player_per_session_id
    }

    pub fn monster_id(&self) -> (r: &MonsterId)
        ensures
            r == &self.monster_id,
    {
        &self.monster_id
    }

    pub fn is_boss(&self) -> (r: &bool)
        ensures
            r == &self.is_boss,
    {
        &self.is_boss
    }

    pub fn class_id(&self) -> (r: &ClassId)
        ensures
            r == &self.class_id,
    {
        &self.class_id
    }

    pub fn race_id(&self) -> (r: &RaceId)
        ensures
            r == &self.race_id,
    {
        &self.race_id
    }

    pub fn name(&self) -> (r: &String)
        ensures
            r == &self.name,
    {
        &self.name
    }

    pub fn display_name(&self) -> (r: &String)
        ensures
            r == &self.display_name,
    {
        &self.display_name
    }

    pub fn character_id(&self) -> (r: &Id)
        ensures
            r == &self.character_id,
    {
        &self.character_id
    }

    pub fn level(&self) -> (r: &Attribute)
        ensures
            r == &self.level,
    {
        &self.level
    }

    pub fn champion_points(&self) -> (r: &Attribute)
        ensures
            r == &self.champion_points,
    {
        &self.champion_points
    }

    pub fn owner_id(&self) -> (r: &UnitId)
        ensures
            r == &self.owner_id,
    {
        &self.owner_id
    }

    pub fn reaction(&self) -> (r: &UnitReactionType)
        ensures
            r == &self.reaction,
    {
        &self.reaction
    }

    pub fn is_grouped_with_local_player(&self) -> (r: &bool)
        ensures
            r == &self.is_grouped_with_local_player,
    {
        &self.is_grouped_with_local_player
    }

}

/// The record round-trips through the wire grammar.
pub open spec fn event_unit_added_wf(m: EventUnitAddedModel) -> bool {
    &&& str_wf(m.name)
    &&& str_wf(m.display_name)
}

/// Wire text of the record, fields comma separated.
pub open spec fn spec_dump_event_unit_added(m: EventUnitAddedModel) -> Seq<char> {
    spec_dump_uint(m.unit_id.0 as nat) + (seq![','] + (UnitType::spec_name(m.unit_type) + (seq![','] + (spec_dump_bool(m.is_local_player) + (seq![','] + (spec_dump_uint(m.player_per_session_id.0 as nat) + (seq![','] + (spec_dump_uint(m.monster_id.0 as nat) + (seq![','] + (spec_dump_bool(m.is_boss) + (seq![','] + (spec_dump_uint(m.class_id.0 as nat) + (seq![','] + (spec_dump_uint(m.race_id.0 as nat) + (seq![','] + (m.name + (seq![','] + (m.display_name + (seq![','] + (spec_dump_uint(m.character_id.0 as nat) + (seq![','] + (spec_dump_uint(m.level as nat) + (seq![','] + (spec_dump_uint(m.champion_points as nat) + (seq![','] + (spec_dump_uint(m.owner_id.0 as nat) + (seq![','] + (UnitReactionType::spec_name(m.reaction) + (seq![','] + (spec_dump_bool(m.is_grouped_with_local_player)))))))))))))))))))))))))))))))
}

/// Parses the record's fields in declaration order.
pub open spec fn spec_parse_event_unit_added(s: Seq<char>) -> Result<(EventUnitAddedModel, Seq<char>), Error> {
    match spec_parse_uint(s, u64::MAX as nat) {
        Err(e) => Err(e),
        Ok((v_unit_id, s1)) => {
            match spec_parse_unit_type(s1) {
                Err(e) => Err(e),
                Ok((v_unit_type, s2)) => {
                    match spec_parse_bool(s2) {
                        Err(e) => Err(e),
                        Ok((v_is_local_player, s3)) => {
                            match spec_parse_uint(s3, u64::MAX as nat) {
                                Err(e) => Err(e),
                                Ok((v_player_per_session_id, s4)) => {
                                    match spec_parse_uint(s4, u64::MAX as nat) {
                                        Err(e) => Err(e),
                                        Ok((v_monster_id, s5)) => {
                                            match spec_parse_bool(s5) {
                                                Err(e) => Err(e),
                                                Ok((v_is_boss, s6)) => {
                                                    match spec_parse_uint(s6, u64::MAX as nat) {
                                                        Err(e) => Err(e),
                                                        Ok((v_class_id, s7)) => {
                                                            match spec_parse_uint(s7, u64::MAX as nat) {
                                                                Err(e) => Err(e),
                                                                Ok((v_race_id, s8)) => {
                                                                    match spec_parse_str(s8) {
                                                                        Err(e) => Err(e),
                                                                        Ok((v_name, s9)) => {
                                                                            match spec_parse_str(s9) {
                                                                                Err(e) => Err(e),
                                                                                Ok((v_display_name, s10)) => {
                                                                                    match spec_parse_uint(s10, u64::MAX as nat) {
                                                                                        Err(e) => Err(e),
                                                                                        Ok((v_character_id, s11)) => {
                                                                                            match spec_parse_uint(s11, u32::MAX as nat) {
                                                                                                Err(e) => Err(e),
                                                                                                Ok((v_level, s12)) => {
                                                                                                    match spec_parse_uint(s12, u32::MAX as nat) {
                                                                                                        Err(e) => Err(e),
                                                                                                        Ok((v_champion_points, s13)) => {
                                                                                                            match spec_parse_uint(s13, u64::MAX as nat) {
                                                                                                                Err(e) => Err(e),
                                                                                                                Ok((v_owner_id, s14)) => {
                                                                                                                    match spec_parse_unit_reaction_type(s14) {
                                                                                                                        Err(e) => Err(e),
                                                                                                                        Ok((v_reaction, s15)) => {
                                                                                                                            match spec_parse_bool(s15) {
                                                                                                                                Err(e) => Err(e),
                                                                                                                                Ok((v_is_grouped_with_local_player, s16)) => {
                                                                                                                                    let m = EventUnitAddedModel {
                                                                                                                                        unit_id: UnitId(v_unit_id as u64),
                                                                                                                                        unit_type: v_unit_type,
                                                                                                                                        is_local_player: v_is_local_player,
                                                                                                                                        player_per_session_id: Id(v_player_per_session_id as u64),
                                                                                                                                        monster_id: MonsterId(v_monster_id as u64),
                                                                                                                                        is_boss: v_is_boss,
                                                                                                                                        class_id: ClassId(v_class_id as u64),
                                                                                                                                        race_id: RaceId(v_race_id as u64),
                                                                                                                                        name: v_name,
                                                                                                                                        display_name: v_display_name,
                                                                                                                                        character_id: Id(v_character_id as u64),
                                                                                                                                        level: v_level as u32,
                                                                                                                                        champion_points: v_champion_points as u32,
                                                                                                                                        owner_id: UnitId(v_owner_id as u64),
                                                                                                                                        reaction: v_reaction,
                                                                                                                                        is_grouped_with_local_player: v_is_grouped_with_local_player,
                                                                                                                                    };
                                                                                                                                    Ok((m, s16))
                                                                                                                                },
                                                                                                                            }
                                                                                                                        },
                                                                                                                    }
                                                                                                                },
                                                                                                            }
                                                                                                        },
                                                                                                    }
                                                                                                },
                                                                                            }
                                                                                        },
                                                                                    }
                                                                                },
                                                                            }
                                                                        },
                                                                    }
                                                                },
                                                            }
                                                        },
                                                    }
                                                },
                                            }
                                        },
                                    }
                                },
                            }
                        },
                    }
                },
            }
        },
    }
}

/// Reads one `EventUnitAdded` from the line.
pub fn parse_event_unit_added(r: &mut EsoLogReaderLine) -> (res: Result<EventUnitAdded, Error>)
    requires
        old(r).wf(),
    ensures
        final(r).wf(),
        match spec_parse_event_unit_added(old(r).remaining()) {
            Ok((m, rest)) => res is Ok && res->Ok_0@ == m && final(r).remaining() == rest,
            Err(e) => res == Err::<EventUnitAdded, Error>(e),
        },
{
    let unit_id = UnitId(match r.read_uint(u64::MAX) { Ok(v) => v, Err(e) => { return Err(e); } });
    let unit_type = match parse_unit_type(r) { Ok(v) => v, Err(e) => { return Err(e); } };
    let is_local_player = match parse_bool(r) { Ok(v) => v, Err(e) => { return Err(e); } };
    let player_per_session_id = Id(match r.read_uint(u64::MAX) { Ok(v) => v, Err(e) => { return Err(e); } });
    let monster_id = MonsterId(match r.read_uint(u64::MAX) { Ok(v) => v, Err(e) => { return Err(e); } });
    let is_boss = match parse_bool(r) { Ok(v) => v, Err(e) => { return Err(e); } };
    let class_id = ClassId(match r.read_uint(u64::MAX) { Ok(v) => v, Err(e) => { return Err(e); } });
    let race_id = RaceId(match r.read_uint(u64::MAX) { Ok(v) => v, Err(e) => { return Err(e); } });
    let name = match parse_string(r) { Ok(v) => v, Err(e) => { return Err(e); } };
    let display_name = match parse_string(r) { Ok(v) => v, Err(e) => { return Err(e); } };
    let character_id = Id(match r.read_uint(u64::MAX) { Ok(v) => v, Err(e) => { return Err(e); } });
    let level = (match r.read_uint(u32::MAX as u64) { Ok(v) => v, Err(e) => { return Err(e); } }) as u32;
    let champion_points = (match r.read_uint(u32::MAX as u64) { Ok(v) => v, Err(e) => { return Err(e); } }) as u32;
    let owner_id = UnitId(match r.read_uint(u64::MAX) { Ok(v) => v, Err(e) => { return Err(e); } });
    let reaction = match parse_unit_reaction_type(r) { Ok(v) => v, Err(e) => { return Err(e); } };
    let is_grouped_with_local_player = match parse_bool(r) { Ok(v) => v, Err(e) => { return Err(e); } };
    Ok(EventUnitAdded {
        unit_id,
        unit_type,
        is_local_player,
        player_per_session_id,
        monster_id,
        is_boss,
        class_id,
        race_id,
        name,
        display_name,
        character_id,
        level,
        champion_points,
        owner_id,
        reaction,
        is_grouped_with_local_player,
    })
}

impl EventUnitAdded {
    /// Appends this record's wire text.
    #[verifier::rlimit(100)]
    pub fn append_to(&self, out: &mut String)
        ensures
            final(out)@ == old(out)@ + spec_dump_event_unit_added(self@),
    {
        proof {
            reveal_strlit(",");
            assert(","@ =~= seq![',']);
        }
        let ghost b0 = out@;
        append_uint(out, self.unit_id.0);
        let ghost b1 = out@;
        out.append(",");
        append_str(out, self.unit_type.name());
        let ghost b2 = out@;
        out.append(",");
        append_bool(out, self.is_local_player);
        let ghost b3 = out@;
        out.append(",");
        append_uint(out, self.player_per_session_id.0);
        let ghost b4 = out@;
        out.append(",");
        append_uint(out, self.monster_id.0);
        let ghost b5 = out@;
        out.append(",");
        append_bool(out, self.is_boss);
        let ghost b6 = out@;
        out.append(",");
        append_uint(out, self.class_id.0);
        let ghost b7 = out@;
        out.append(",");
        append_uint(out, self.race_id.0);
        let ghost b8 = out@;
        out.append(",");
        append_str(out, self.name.as_str());
        let ghost b9 = out@;
        out.append(",");
        append_str(out, self.display_name.as_str());
        let ghost b10 = out@;
        out.append(",");
        append_uint(out, self.character_id.0);
        let ghost b11 = out@;
        out.append(",");
        append_uint(out, self.level as u64);
        let ghost b12 = out@;
        out.append(",");
        append_uint(out, self.champion_points as u64);
        let ghost b13 = out@;
        out.append(",");
        append_uint(out, self.owner_id.0);
        let ghost b14 = out@;
        out.append(",");
        append_str(out, self.reaction.name());
        let ghost b15 = out@;
        out.append(",");
        append_bool(out, self.is_grouped_with_local_player);
        let ghost b16 = out@;
        proof {
            assert(b1 == b0 + (spec_dump_uint(self@.unit_id.0 as nat)));
            assert(b2 == (b1 + seq![',']) + (UnitType::spec_name(self@.unit_type)));
            assert(b3 == (b2 + seq![',']) + (spec_dump_bool(self@.is_local_player)));
            assert(b4 == (b3 + seq![',']) + (spec_dump_uint(self@.player_per_session_id.0 as nat)));
            assert(b5 == (b4 + seq![',']) + (spec_dump_uint(self@.monster_id.0 as nat)));
            assert(b6 == (b5 + seq![',']) + (spec_dump_bool(self@.is_boss)));
            assert(b7 == (b6 + seq![',']) + (spec_dump_uint(self@.class_id.0 as nat)));
            assert(b8 == (b7 + seq![',']) + (spec_dump_uint(self@.race_id.0 as nat)));
            assert(b9 == (b8 + seq![',']) + (self@.name));
            assert(b10 == (b9 + seq![',']) + (self@.display_name));
            assert(b11 == (b10 + seq![',']) + (spec_dump_uint(self@.character_id.0 as nat)));
            assert(b12 == (b11 + seq![',']) + (spec_dump_uint(self@.level as nat)));
            assert(b13 == (b12 + seq![',']) + (spec_dump_uint(self@.champion_points as nat)));
            assert(b14 == (b13 + seq![',']) + (spec_dump_uint(self@.owner_id.0 as nat)));
            assert(b15 == (b14 + seq![',']) + (UnitReactionType::spec_name(self@.reaction)));
            assert(b16 == (b15 + seq![',']) + (spec_dump_bool(self@.is_grouped_with_local_player)));
            assert(out@ == b16);
            let u15 = seq![','] + (spec_dump_bool(self@.is_grouped_with_local_player));
            lemma_regroup_last(b15, spec_dump_bool(self@.is_grouped_with_local_player), out@);
            assert(out@ == b15 + u15);
            let u14 = seq![','] + ((UnitReactionType::spec_name(self@.reaction)) + u15);
            lemma_regroup_comma_first(b14, UnitReactionType::spec_name(self@.reaction), b15, u15, out@);
            assert(out@ == b14 + u14);
            let u13 = seq![','] + ((spec_dump_uint(self@.owner_id.0 as nat)) + u14);
            lemma_regroup_comma_first(b13, spec_dump_uint(self@.owner_id.0 as nat), b14, u14, out@);
            assert(out@ == b13 + u13);
            let u12 = seq![','] + ((spec_dump_uint(self@.champion_points as nat)) + u13);
            lemma_regroup_comma_first(b12, spec_dump_uint(self@.champion_points as nat), b13, u13, out@);
            assert(out@ == b12 + u12);
            let u11 = seq![','] + ((spec_dump_uint(self@.level as nat)) + u12);
            lemma_regroup_comma_first(b11, spec_dump_uint(self@.level as nat), b12, u12, out@);
            assert(out@ == b11 + u11);
            let u10 = seq![','] + ((spec_dump_uint(self@.character_id.0 as nat)) + u11);
            lemma_regroup_comma_first(b10, spec_dump_uint(self@.character_id.0 as nat), b11, u11, out@);
            assert(out@ == b10 + u10);
            let u9 = seq![','] + ((self@.display_name) + u10);
            lemma_regroup_comma_first(b9, self@.display_name, b10, u10, out@);
            assert(out@ == b9 + u9);
            let u8 = seq![','] + ((self@.name) + u9);
            lemma_regroup_comma_first(b8, self@.name, b9, u9, out@);
            assert(out@ == b8 + u8);
            let u7 = seq![','] + ((spec_dump_uint(self@.race_id.0 as nat)) + u8);
            lemma_regroup_comma_first(b7, spec_dump_uint(self@.race_id.0 as nat), b8, u8, out@);
            assert(out@ == b7 + u7);
            let u6 = seq![','] + ((spec_dump_uint(self@.class_id.0 as nat)) + u7);
            lemma_regroup_comma_first(b6, spec_dump_uint(self@.class_id.0 as nat), b7, u7, out@);
            assert(out@ == b6 + u6);
            let u5 = seq![','] + ((spec_dump_bool(self@.is_boss)) + u6);
            lemma_regroup_comma_first(b5, spec_dump_bool(self@.is_boss), b6, u6, out@);
            assert(out@ == b5 + u5);
            let u4 = seq![','] + ((spec_dump_uint(self@.monster_id.0 as nat)) + u5);
            lemma_regroup_comma_first(b4, spec_dump_uint(self@.monster_id.0 as nat), b5, u5, out@);
            assert(out@ == b4 + u4);
            let u3 = seq![','] + ((spec_dump_uint(self@.player_per_session_id.0 as nat)) + u4);
            lemma_regroup_comma_first(b3, spec_dump_uint(self@.player_per_session_id.0 as nat), b4, u4, out@);
            assert(out@ == b3 + u3);
            let u2 = seq![','] + ((spec_dump_bool(self@.is_local_player)) + u3);
            lemma_regroup_comma_first(b2, spec_dump_bool(self@.is_local_player), b3, u3, out@);
            assert(out@ == b2 + u2);
            let u1 = seq![','] + ((UnitType::spec_name(self@.unit_type)) + u2);
            lemma_regroup_comma_first(b1, UnitType::spec_name(self@.unit_type), b2, u2, out@);
            assert(out@ == b1 + u1);
            let u0 = (spec_dump_uint(self@.unit_id.0 as nat)) + u1;
            lemma_regroup_head(b0, spec_dump_uint(self@.unit_id.0 as nat), b1, u1, out@);
            assert(out@ == b0 + u0);
            assert(out@ == b0 + spec_dump_event_unit_added(self@));
        }
    }
}

/// Parsing the dumped record yields the record.
#[verifier::rlimit(100)]
pub proof fn lemma_parse_event_unit_added_roundtrip(m: EventUnitAddedModel)
    requires
        event_unit_added_wf(m),
    ensures
        spec_parse_event_unit_added(spec_dump_event_unit_added(m)) == Ok::<(EventUnitAddedModel, Seq<char>), Error>((m, Seq::<char>::empty())),
{
    let rest = Seq::<char>::empty();
    assert(spec_dump_event_unit_added(m) =~= spec_dump_event_unit_added(m) + rest);
    let s15 = spec_dump_bool(m.is_grouped_with_local_player) + rest;
    let s14 = UnitReactionType::spec_name(m.reaction) + (seq![','] + s15);
    let s13 = spec_dump_uint(m.owner_id.0 as nat) + (seq![','] + s14);
    let s12 = spec_dump_uint(m.champion_points as nat) + (seq![','] + s13);
    let s11 = spec_dump_uint(m.level as nat) + (seq![','] + s12);
    let s10 = spec_dump_uint(m.character_id.0 as nat) + (seq![','] + s11);
    let s9 = m.display_name + (seq![','] + s10);
    let s8 = m.name + (seq![','] + s9);
    let s7 = spec_dump_uint(m.race_id.0 as nat) + (seq![','] + s8);
    let s6 = spec_dump_uint(m.class_id.0 as nat) + (seq![','] + s7);
    let s5 = spec_dump_bool(m.is_boss) + (seq![','] + s6);
    let s4 = spec_dump_uint(m.monster_id.0 as nat) + (seq![','] + s5);
    let s3 = spec_dump_uint(m.player_per_session_id.0 as nat) + (seq![','] + s4);
    let s2 = spec_dump_bool(m.is_local_player) + (seq![','] + s3);
    let s1 = UnitType::spec_name(m.unit_type) + (seq![','] + s2);
    let s0 = spec_dump_uint(m.unit_id.0 as nat) + (seq![','] + s1);
    lemma_comma_chop(s1);
    lemma_parse_uint_roundtrip(m.unit_id.0 as nat, u64::MAX as nat, seq![','] + s1);
    lemma_comma_chop(s2);
    UnitType::lemma_parse_roundtrip(m.unit_type, seq![','] + s2);
    lemma_comma_chop(s3);
    lemma_parse_bool_roundtrip(m.is_local_player, seq![','] + s3);
    lemma_comma_chop(s4);
    lemma_parse_uint_roundtrip(m.player_per_session_id.0 as nat, u64::MAX as nat, seq![','] + s4);
    lemma_comma_chop(s5);
    lemma_parse_uint_roundtrip(m.monster_id.0 as nat, u64::MAX as nat, seq![','] + s5);
    lemma_comma_chop(s6);
    lemma_parse_bool_roundtrip(m.is_boss, seq![','] + s6);
    lemma_comma_chop(s7);
    lemma_parse_uint_roundtrip(m.class_id.0 as nat, u64::MAX as nat, seq![','] + s7);
    lemma_comma_chop(s8);
    lemma_parse_uint_roundtrip(m.race_id.0 as nat, u64::MAX as nat, seq![','] + s8);
    lemma_comma_chop(s9);
    lemma_parse_str_roundtrip(m.name, seq![','] + s9);
    lemma_comma_chop(s10);
    lemma_parse_str_roundtrip(m.display_name, seq![','] + s10);
    lemma_comma_chop(s11);
    lemma_parse_uint_roundtrip(m.character_id.0 as nat, u64::MAX as nat, seq![','] + s11);
    lemma_comma_chop(s12);
    lemma_parse_uint_roundtrip(m.level as nat, u32::MAX as nat, seq![','] + s12);
    lemma_comma_chop(s13);
    lemma_parse_uint_roundtrip(m.champion_points as nat, u32::MAX as nat, seq![','] + s13);
    lemma_comma_chop(s14);
    lemma_parse_uint_roundtrip(m.owner_id.0 as nat, u64::MAX as nat, seq![','] + s14);
    lemma_comma_chop(s15);
    UnitReactionType::lemma_parse_roundtrip(m.reaction, seq![','] + s15);
    lemma_parse_bool_roundtrip(m.is_grouped_with_local_player, rest);
    let v15 = spec_dump_bool(m.is_grouped_with_local_player);
    assert(v15 + rest == s15);
    let v14 = UnitReactionType::spec_name(m.reaction) + (seq![','] + v15);
    lemma_shift_rest(UnitReactionType::spec_name(m.reaction), v15, s15, rest);
    assert(v14 + rest == s14);
    let v13 = spec_dump_uint(m.owner_id.0 as nat) + (seq![','] + v14);
    lemma_shift_rest(spec_dump_uint(m.owner_id.0 as nat), v14, s14, rest);
    assert(v13 + rest == s13);
    let v12 = spec_dump_uint(m.champion_points as nat) + (seq![','] + v13);
    lemma_shift_rest(spec_dump_uint(m.champion_points as nat), v13, s13, rest);
    assert(v12 + rest == s12);
    let v11 = spec_dump_uint(m.level as nat) + (seq![','] + v12);
    lemma_shift_rest(spec_dump_uint(m.level as nat), v12, s12, rest);
    assert(v11 + rest == s11);
    let v10 = spec_dump_uint(m.character_id.0 as nat) + (seq![','] + v11);
    lemma_shift_rest(spec_dump_uint(m.character_id.0 as nat), v11, s11, rest);
    assert(v10 + rest == s10);
    let v9 = m.display_name + (seq![','] + v10);
    lemma_shift_rest(m.display_name, v10, s10, rest);
    assert(v9 + rest == s9);
    let v8 = m.name + (seq![','] + v9);
    lemma_shift_rest(m.name, v9, s9, rest);
    assert(v8 + rest == s8);
    let v7 = spec_dump_uint(m.race_id.0 as nat) + (seq![','] + v8);
    lemma_shift_rest(spec_dump_uint(m.race_id.0 as nat), v8, s8, rest);
    assert(v7 + rest == s7);
    let v6 = spec_dump_uint(m.class_id.0 as nat) + (seq![','] + v7);
    lemma_shift_rest(spec_dump_uint(m.class_id.0 as nat), v7, s7, rest);
    assert(v6 + rest == s6);
    let v5 = spec_dump_bool(m.is_boss) + (seq![','] + v6);
    lemma_shift_rest(spec_dump_bool(m.is_boss), v6, s6, rest);
    assert(v5 + rest == s5);
    let v4 = spec_dump_uint(m.monster_id.0 as nat) + (seq![','] + v5);
    lemma_shift_rest(spec_dump_uint(m.monster_id.0 as nat), v5, s5, rest);
    assert(v4 + rest == s4);
    let v3 = spec_dump_uint(m.player_per_session_id.0 as nat) + (seq![','] + v4);
    lemma_shift_rest(spec_dump_uint(m.player_per_session_id.0 as nat), v4, s4, rest);
    assert(v3 + rest == s3);
    let v2 = spec_dump_bool(m.is_local_player) + (seq![','] + v3);
    lemma_shift_rest(spec_dump_bool(m.is_local_player), v3, s3, rest);
    assert(v2 + rest == s2);
    let v1 = UnitType::spec_name(m.unit_type) + (seq![','] + v2);
    lemma_shift_rest(UnitType::spec_name(m.unit_type), v2, s2, rest);
    assert(v1 + rest == s1);
    let v0 = spec_dump_uint(m.unit_id.0 as nat) + (seq![','] + v1);
    lemma_shift_rest(spec_dump_uint(m.unit_id.0 as nat), v1, s1, rest);
    assert(v0 + rest == s0);
    assert(spec_dump_event_unit_added(m) =~= v0);
    assert(spec_dump_event_unit_added(m) + rest == s0);
}

/// A unit's description changed.
#[derive(Debug, Clone)]
pub struct EventUnitChanged {
    pub unit_id: UnitId,
    pub class_id: ClassId,
    pub race_id: RaceId,
    pub name: String,
    pub display_name: String,
    pub character_id: Id,
    pub level: Attribute,
    pub champion_points: Attribute,
    pub owner_id: Id,
    pub reaction: UnitReactionType,
    pub is_grouped_with_local_player: bool,
}

/// Mathematical image of [`EventUnitChanged`].
#[verifier::ext_equal]
pub ghost struct EventUnitChangedModel {
    pub unit_id: UnitId,
    pub class_id: ClassId,
    pub race_id: RaceId,
    pub name: Seq<char>,
    pub display_name: Seq<char>,
    pub character_id: Id,
    pub level: u32,
    pub champion_points: u32,
    pub owner_id: Id,
    pub reaction: UnitReactionType,
    pub is_grouped_with_local_player: bool,
}

impl View for EventUnitChanged {
    type V = EventUnitChangedModel;

    open spec fn view(&self) -> EventUnitChangedModel {
        EventUnitChangedModel {
            unit_id: self.unit_id,
            class_id: self.class_id,
            race_id: self.race_id,
            name: self.name@,
            display_name: self.display_name@,
            character_id: self.character_id,
            level: self.level,
            champion_points: self.champion_points,
            owner_id: self.owner_id,
            reaction: self.reaction,
            is_grouped_with_local_player: self.is_grouped_with_local_player,
        }
    }
}

impl EventUnitChanged {
    pub fn unit_id(&self) -> (r: &UnitId)
        ensures
            r == &self.unit_id,
    {
        &self.unit_id
    }

    pub fn class_id(&self) -> (r: &ClassId)
        ensures
            r == &self.class_id,
    {
        &self.class_id
    }

    pub fn race_id(&self) -> (r: &RaceId)
        ensures
            r == &self.race_id,
    {
        &self.race_id
    }

    pub fn name(&self) -> (r: &String)
        ensures
            r == &self.name,
    {
        &self.name
    }

    pub fn display_name(&self) -> (r: &String)
        ensures
            r == &self.display_name,
    {
        &self.display_name
    }

    pub fn character_id(&self) -> (r: &Id)
        ensures
            r == &self.character_id,
    {
        &self.character_id
    }

    pub fn level(&self) -> (r: &Attribute)
        ensures
            r == &self.level,
    {
        &self.level
    }

    pub fn champion_points(&self) -> (r: &Attribute)
        ensures
            r == &self.champion_points,
    {
        &self.champion_points
    }

    pub fn owner_id(&self) -> (r: &Id)
        ensures
            r == &self.owner_id,
    {
        &self.owner_id
    }

    pub fn reaction(&self) -> (r: &UnitReactionType)
        ensures
            r == &self.reaction,
    {
        &self.reaction
    }

    pub fn is_grouped_with_local_player(&self) -> (r: &bool)
        ensures
            r == &self.is_grouped_with_local_player,
    {
        &self.is_grouped_with_local_player
    }

}

/// The record round-trips through the wire grammar.
pub open spec fn event_unit_changed_wf(m: EventUnitChangedModel) -> bool {
    &&& str_wf(m.name)
    &&& str_wf(m.display_name)
}

/// Wire text of the record, fields comma separated.
pub open spec fn spec_dump_event_unit_changed(m: EventUnitChangedModel) -> Seq<char> {
    spec_dump_uint(m.unit_id.0 as nat) + (seq![','] + (spec_dump_uint(m.class_id.0 as nat) + (seq![','] + (spec_dump_uint(m.race_id.0 as nat) + (seq![','] + (m.name + (seq![','] + (m.display_name + (seq![','] + (spec_dump_uint(m.character_id.0 as nat) + (seq![','] + (spec_dump_uint(m.level as nat) + (seq![','] + (spec_dump_uint(m.champion_points as nat) + (seq![','] + (spec_dump_uint(m.owner_id.0 as nat) + (seq![','] + (UnitReactionType::spec_name(m.reaction) + (seq![','] + (spec_dump_bool(m.is_grouped_with_local_player)))))))))))))))))))))
}

/// Parses the record's fields in declaration order.
pub open spec fn spec_parse_event_unit_changed(s: Seq<char>) -> Result<(EventUnitChangedModel, Seq<char>), Error> {
    match spec_parse_uint(s, u64::MAX as nat) {
        Err(e) => Err(e),
        Ok((v_unit_id, s1)) => {
            match spec_parse_uint(s1, u64::MAX as nat) {
                Err(e) => Err(e),
                Ok((v_class_id, s2)) => {
                    match spec_parse_uint(s2, u64::MAX as nat) {
                        Err(e) => Err(e),
                        Ok((v_race_id, s3)) => {
                            match spec_parse_str(s3) {
                                Err(e) => Err(e),
                                Ok((v_name, s4)) => {
                                    match spec_parse_str(s4) {
                                        Err(e) => Err(e),
                                        Ok((v_display_name, s5)) => {
                                            match spec_parse_uint(s5, u64::MAX as nat) {
                                                Err(e) => Err(e),
                                                Ok((v_character_id, s6)) => {
                                                    match spec_parse_uint(s6, u32::MAX as nat) {
                                                        Err(e) => Err(e),
                                                        Ok((v_level, s7)) => {
                                                            match spec_parse_uint(s7, u32::MAX as nat) {
                                                                Err(e) => Err(e),
                                                                Ok((v_champion_points, s8)) => {
                                                                    match spec_parse_uint(s8, u64::MAX as nat) {
                                                                        Err(e) => Err(e),
                                                                        Ok((v_owner_id, s9)) => {
                                                                            match spec_parse_unit_reaction_type(s9) {
                                                                                Err(e) => Err(e),
                                                                                Ok((v_reaction, s10)) => {
                                                                                    match spec_parse_bool(s10) {
                                                                                        Err(e) => Err(e),
                                                                                        Ok((v_is_grouped_with_local_player, s11)) => {
                                                                                            let m = EventUnitChangedModel {
                                                                                                unit_id: UnitId(v_unit_id as u64),
                                                                                                class_id: ClassId(v_class_id as u64),
                                                                                                race_id: RaceId(v_race_id as u64),
                                                                                                name: v_name,
                                                                                                display_name: v_display_name,
                                                                                                character_id: Id(v_character_id as u64),
                                                                                                level: v_level as u32,
                                                                                                champion_points: v_champion_points as u32,
                                                                                                owner_id: Id(v_owner_id as u64),
                                                                                                reaction: v_reaction,
                                                                                                is_grouped_with_local_player: v_is_grouped_with_local_player,
                                                                                            };
                                                                                            Ok((m, s11))
                                                                                        },
                                                                                    }
                                                                                },
                                                                            }
                                                                        },
                                                                    }
                                                                },
                                                            }
                                                        },
                                                    }
                                                },
                                            }
                                        },
                                    }
                                },
                            }
                        },
                    }
                },
            }
        },
    }
}

/// Reads one `EventUnitChanged` from the line.
pub fn parse_event_unit_changed(r: &mut EsoLogReaderLine) -> (res: Result<EventUnitChanged, Error>)
    requires
        old(r).wf(),
    ensures
        final(r).wf(),
        match spec_parse_event_unit_changed(old(r).remaining()) {
            Ok((m, rest)) => res is Ok && res->Ok_0@ == m && final(r).remaining() == rest,
            Err(e) => res == Err::<EventUnitChanged, Error>(e),
        },
{
    let unit_id = UnitId(match r.read_uint(u64::MAX) { Ok(v) => v, Err(e) => { return Err(e); } });
    let class_id = ClassId(match r.read_uint(u64::MAX) { Ok(v) => v, Err(e) => { return Err(e); } });
    let race_id = RaceId(match r.read_uint(u64::MAX) { Ok(v) => v, Err(e) => { return Err(e); } });
    let name = match parse_string(r) { Ok(v) => v, Err(e) => { return Err(e); } };
    let display_name = match parse_string(r) { Ok(v) => v, Err(e) => { return Err(e); } };
    let character_id = Id(match r.read_uint(u64::MAX) { Ok(v) => v, Err(e) => { return Err(e); } });
    let level = (match r.read_uint(u32::MAX as u64) { Ok(v) => v, Err(e) => { return Err(e); } }) as u32;
    let champion_points = (match r.read_uint(u32::MAX as u64) { Ok(v) => v, Err(e) => { return Err(e); } }) as u32;
    let owner_id = Id(match r.read_uint(u64::MAX) { Ok(v) => v, Err(e) => { return Err(e); } });
    let reaction = match parse_unit_reaction_type(r) { Ok(v) => v, Err(e) => { return Err(e); } };
    let is_grouped_with_local_player = match parse_bool(r) { Ok(v) => v, Err(e) => { return Err(e); } };
    Ok(EventUnitChanged {
        unit_id,
        class_id,
        race_id,
        name,
        display_name,
        character_id,
        level,
        champion_points,
        owner_id,
        reaction,
        is_grouped_with_local_player,
    })
}

impl EventUnitChanged {
    /// Appends this record's wire text.
    #[verifier::rlimit(100)]
    pub fn append_to(&self, out: &mut String)
        ensures
            final(out)@ == old(out)@ + spec_dump_event_unit_changed(self@),
    {
        proof {
            reveal_strlit(",");
            assert(","@ =~= seq![',']);
        }
        let ghost b0 = out@;
        append_uint(out, self.unit_id.0);
        let ghost b1 = out@;
        out.append(",");
        append_uint(out, self.class_id.0);
        let ghost b2 = out@;
        out.append(",");
        append_uint(out, self.race_id.0);
        let ghost b3 = out@;
        out.append(",");
        append_str(out, self.name.as_str());
        let ghost b4 = out@;
        out.append(",");
        append_str(out, self.display_name.as_str());
        let ghost b5 = out@;
        out.append(",");
        append_uint(out, self.character_id.0);
        let ghost b6 = out@;
        out.append(",");
        append_uint(out, self.level as u64);
        let ghost b7 = out@;
        out.append(",");
        append_uint(out, self.champion_points as u64);
        let ghost b8 = out@;
        out.append(",");
        append_uint(out, self.owner_id.0);
        let ghost b9 = out@;
        out.append(",");
        append_str(out, self.reaction.name());
        let ghost b10 = out@;
        out.append(",");
        append_bool(out, self.is_grouped_with_local_player);
        let ghost b11 = out@;
        proof {
            assert(b1 == b0 + (spec_dump_uint(self@.unit_id.0 as nat)));
            assert(b2 == (b1 + seq![',']) + (spec_dump_uint(self@.class_id.0 as nat)));
            assert(b3 == (b2 + seq![',']) + (spec_dump_uint(self@.race_id.0 as nat)));
            assert(b4 == (b3 + seq![',']) + (self@.name));
            assert(b5 == (b4 + seq![',']) + (self@.display_name));
            assert(b6 == (b5 + seq![',']) + (spec_dump_uint(self@.character_id.0 as nat)));
            assert(b7 == (b6 + seq![',']) + (spec_dump_uint(self@.level as nat)));
            assert(b8 == (b7 + seq![',']) + (spec_dump_uint(self@.champion_points as nat)));
            assert(b9 == (b8 + seq![',']) + (spec_dump_uint(self@.owner_id.0 as nat)));
            assert(b10 == (b9 + seq![',']) + (UnitReactionType::spec_name(self@.reaction)));
            assert(b11 == (b10 + seq![',']) + (spec_dump_bool(self@.is_grouped_with_local_player)));
            assert(out@ == b11);
            let u10 = seq![','] + (spec_dump_bool(self@.is_grouped_with_local_player));
            lemma_regroup_last(b10, spec_dump_bool(self@.is_grouped_with_local_player), out@);
            assert(out@ == b10 + u10);
            let u9 = seq![','] + ((UnitReactionType::spec_name(self@.reaction)) + u10);
            lemma_regroup_comma_first(b9, UnitReactionType::spec_name(self@.reaction), b10, u10, out@);
            assert(out@ == b9 + u9);
            let u8 = seq![','] + ((spec_dump_uint(self@.owner_id.0 as nat)) + u9);
            lemma_regroup_comma_first(b8, spec_dump_uint(self@.owner_id.0 as nat), b9, u9, out@);
            assert(out@ == b8 + u8);
            let u7 = seq![','] + ((spec_dump_uint(self@.champion_points as nat)) + u8);
            lemma_regroup_comma_first(b7, spec_dump_uint(self@.champion_points as nat), b8, u8, out@);
            assert(out@ == b7 + u7);
            let u6 = seq![','] + ((spec_dump_uint(self@.level as nat)) + u7);
            lemma_regroup_comma_first(b6, spec_dump_uint(self@.level as nat), b7, u7, out@);
            assert(out@ == b6 + u6);
            let u5 = seq![','] + ((spec_dump_uint(self@.character_id.0 as nat)) + u6);
            lemma_regroup_comma_first(b5, spec_dump_uint(self@.character_id.0 as nat), b6, u6, out@);
            assert(out@ == b5 + u5);
            let u4 = seq![','] + ((self@.display_name) + u5);
            lemma_regroup_comma_first(b4, self@.display_name, b5, u5, out@);
            assert(out@ == b4 + u4);
            let u3 = seq![','] + ((self@.name) + u4);
            lemma_regroup_comma_first(b3, self@.name, b4, u4, out@);
            assert(out@ == b3 + u3);
            let u2 = seq![','] + ((spec_dump_uint(self@.race_id.0 as nat)) + u3);
            lemma_regroup_comma_first(b2, spec_dump_uint(self@.race_id.0 as nat), b3, u3, out@);
            assert(out@ == b2 + u2);
            let u1 = seq![','] + ((spec_dump_uint(self@.class_id.0 as nat)) + u2);
            lemma_regroup_comma_first(b1, spec_dump_uint(self@.class_id.0 as nat), b2, u2, out@);
            assert(out@ == b1 + u1);
            let u0 = (spec_dump_uint(self@.unit_id.0 as nat)) + u1;
            lemma_regroup_head(b0, spec_dump_uint(self@.unit_id.0 as nat), b1, u1, out@);
            assert(out@ == b0 + u0);
            assert(out@ == b0 + spec_dump_event_unit_changed(self@));
        }
    }
}

/// Parsing the dumped record yields the record.
#[verifier::rlimit(100)]
pub proof fn lemma_parse_event_unit_changed_roundtrip(m: EventUnitChangedModel)
    requires
        event_unit_changed_wf(m),
    ensures
        spec_parse_event_unit_changed(spec_dump_event_unit_changed(m)) == Ok::<(EventUnitChangedModel, Seq<char>), Error>((m, Seq::<char>::empty())),
{
    let rest = Seq::<char>::empty();
    assert(spec_dump_event_unit_changed(m) =~= spec_dump_event_unit_changed(m) + rest);
    let s10 = spec_dump_bool(m.is_grouped_with_local_player) + rest;
    let s9 = UnitReactionType::spec_name(m.reaction) + (seq![','] + s10);
    let s8 = spec_dump_uint(m.owner_id.0 as nat) + (seq![','] + s9);
    let s7 = spec_dump_uint(m.champion_points as nat) + (seq![','] + s8);
    let s6 = spec_dump_uint(m.level as nat) + (seq![','] + s7);
    let s5 = spec_dump_uint(m.character_id.0 as nat) + (seq![','] + s6);
    let s4 = m.display_name + (seq![','] + s5);
    let s3 = m.name + (seq![','] + s4);
    let s2 = spec_dump_uint(m.race_id.0 as nat) + (seq![','] + s3);
    let s1 = spec_dump_uint(m.class_id.0 as nat) + (seq![','] + s2);
    let s0 = spec_dump_uint(m.unit_id.0 as nat) + (seq![','] + s1);
    lemma_comma_chop(s1);
    lemma_parse_uint_roundtrip(m.unit_id.0 as nat, u64::MAX as nat, seq![','] + s1);
    lemma_comma_chop(s2);
    lemma_parse_uint_roundtrip(m.class_id.0 as nat, u64::MAX as nat, seq![','] + s2);
    lemma_comma_chop(s3);
    lemma_parse_uint_roundtrip(m.race_id.0 as nat, u64::MAX as nat, seq![','] + s3);
    lemma_comma_chop(s4);
    lemma_parse_str_roundtrip(m.name, seq![','] + s4);
    lemma_comma_chop(s5);
    lemma_parse_str_roundtrip(m.display_name, seq![','] + s5);
    lemma_comma_chop(s6);
    lemma_parse_uint_roundtrip(m.character_id.0 as nat, u64::MAX as nat, seq![','] + s6);
    lemma_comma_chop(s7);
    lemma_parse_uint_roundtrip(m.level as nat, u32::MAX as nat, seq![','] + s7);
    lemma_comma_chop(s8);
    lemma_parse_uint_roundtrip(m.champion_points as nat, u32::MAX as nat, seq![','] + s8);
    lemma_comma_chop(s9);
    lemma_parse_uint_roundtrip(m.owner_id.0 as nat, u64::MAX as nat, seq![','] + s9);
    lemma_comma_chop(s10);
    UnitReactionType::lemma_parse_roundtrip(m.reaction, seq![','] + s10);
    lemma_parse_bool_roundtrip(m.is_grouped_with_local_player, rest);
    let v10 = spec_dump_bool(m.is_grouped_with_local_player);
    assert(v10 + rest == s10);
    let v9 = UnitReactionType::spec_name(m.reaction) + (seq![','] + v10);
    lemma_shift_rest(UnitReactionType::spec_name(m.reaction), v10, s10, rest);
    assert(v9 + rest == s9);
    let v8 = spec_dump_uint(m.owner_id.0 as nat) + (seq![','] + v9);
    lemma_shift_rest(spec_dump_uint(m.owner_id.0 as nat), v9, s9, rest);
    assert(v8 + rest == s8);
    let v7 = spec_dump_uint(m.champion_points as nat) + (seq![','] + v8);
    lemma_shift_rest(spec_dump_uint(m.champion_points as nat), v8, s8, rest);
    assert(v7 + rest == s7);
    let v6 = spec_dump_uint(m.level as nat) + (seq![','] + v7);
    lemma_shift_rest(spec_dump_uint(m.level as nat), v7, s7, rest);
    assert(v6 + rest == s6);
    let v5 = spec_dump_uint(m.character_id.0 as nat) + (seq![','] + v6);
    lemma_shift_rest(spec_dump_uint(m.character_id.0 as nat), v6, s6, rest);
    assert(v5 + rest == s5);
    let v4 = m.display_name + (seq![','] + v5);
    lemma_shift_rest(m.display_name, v5, s5, rest);
    assert(v4 + rest == s4);
    let v3 = m.name + (seq![','] + v4);
    lemma_shift_rest(m.name, v4, s4, rest);
    assert(v3 + rest == s3);
    let v2 = spec_dump_uint(m.race_id.0 as nat) + (seq![','] + v3);
    lemma_shift_rest(spec_dump_uint(m.race_id.0 as nat), v3, s3, rest);
    assert(v2 + rest == s2);
    let v1 = spec_dump_uint(m.class_id.0 as nat) + (seq![','] + v2);
    lemma_shift_rest(spec_dump_uint(m.class_id.0 as nat), v2, s2, rest);
    assert(v1 + rest == s1);
    let v0 = spec_dump_uint(m.unit_id.0 as nat) + (seq![','] + v1);
    lemma_shift_rest(spec_dump_uint(m.unit_id.0 as nat), v1, s1, rest);
    assert(v0 + rest == s0);
    assert(spec_dump_event_unit_changed(m) =~= v0);
    assert(spec_dump_event_unit_changed(m) + rest == s0);
}

/// A unit left the world.
#[derive(Debug, Clone, Copy, PartialEq, Eq, Structural)]
pub struct EventUnitRemoved {
    pub unit_id: UnitId,
}

impl EventUnitRemoved {
    pub fn unit_id(&self) -> (r: &UnitId)
        ensures
            r == &self.unit_id,
    {
        &self.unit_id
    }

}

/// The record round-trips through the wire grammar.
pub open spec fn event_unit_removed_wf(m: EventUnitRemoved) -> bool {
    true
}

/// Wire text of the record, fields comma separated.
pub open spec fn spec_dump_event_unit_removed(m: EventUnitRemoved) -> Seq<char> {
    spec_dump_uint(m.unit_id.0 as nat)
}

/// Parses the record's fields in declaration order.
pub open spec fn spec_parse_event_unit_removed(s: Seq<char>) -> Result<(EventUnitRemoved, Seq<char>), Error> {
    match spec_parse_uint(s, u64::MAX as nat) {
        Err(e) => Err(e),
        Ok((v_unit_id, s1)) => {
            let m = EventUnitRemoved {
                unit_id: UnitId(v_unit_id as u64),
            };
            Ok((m, s1))
        },
    }
}

/// Reads one `EventUnitRemoved` from the line.
pub fn parse_event_unit_removed(r: &mut EsoLogReaderLine) -> (res: Result<EventUnitRemoved, Error>)
    requires
        old(r).wf(),
    ensures
        final(r).wf(),
        match spec_parse_event_unit_removed(old(r).remaining()) {
            Ok((m, rest)) => res == Ok::<EventUnitRemoved, Error>(m) && final(r).remaining() == rest,
            Err(e) => res == Err::<EventUnitRemoved, Error>(e),
        },
{
    let unit_id = UnitId(match r.read_uint(u64::MAX) { Ok(v) => v, Err(e) => { return Err(e); } });
    Ok(EventUnitRemoved {
        unit_id,
    })
}

impl EventUnitRemoved {
    /// Appends this record's wire text.
    #[verifier::rlimit(100)]
    pub fn append_to(&self, out: &mut String)
        ensures
            final(out)@ == old(out)@ + spec_dump_event_unit_removed(*self),
    {
        proof {
            reveal_strlit(",");
            assert(","@ =~= seq![',']);
        }
        let ghost b0 = out@;
        append_uint(out, self.unit_id.0);
        let ghost b1 = out@;
        proof {
            assert(b1 == b0 + (spec_dump_uint((*self).unit_id.0 as nat)));
            assert(out@ == b1);
            let u0 = spec_dump_uint((*self).unit_id.0 as nat);
            assert(out@ == b0 + u0);
            assert(out@ == b0 + spec_dump_event_unit_removed((*self)));
        }
    }
}

/// Parsing the dumped record yields the record.
#[verifier::rlimit(100)]
pub proof fn lemma_parse_event_unit_removed_roundtrip(m: EventUnitRemoved)
    requires
        event_unit_removed_wf(m),
    ensures
        spec_parse_event_unit_removed(spec_dump_event_unit_removed(m)) == Ok::<(EventUnitRemoved, Seq<char>), Error>((m, Seq::<char>::empty())),
{
    let rest = Seq::<char>::empty();
    assert(spec_dump_event_unit_removed(m) =~= spec_dump_event_unit_removed(m) + rest);
    let s0 = spec_dump_uint(m.unit_id.0 as nat) + rest;
    lemma_parse_uint_roundtrip(m.unit_id.0 as nat, u64::MAX as nat, rest);
    let v0 = spec_dump_uint(m.unit_id.0 as nat);
    assert(v0 + rest == s0);
    assert(spec_dump_event_unit_removed(m) =~= v0);
    assert(spec_dump_event_unit_removed(m) + rest == s0);
}

/// The current zone changed.
#[derive(Debug, Clone)]
pub struct EventZoneInfo {
    pub id: Id,
    pub name: String,
    pub dungeon_difficulty: DungeonDifficulty,
}

/// Mathematical image of [`EventZoneInfo`].
#[verifier::ext_equal]
pub ghost struct EventZoneInfoModel {
    pub id: Id,
    pub name: Seq<char>,
    pub dungeon_difficulty: DungeonDifficulty,
}

impl View for EventZoneInfo {
    type V = EventZoneInfoModel;

    open spec fn view(&self) -> EventZoneInfoModel {
        EventZoneInfoModel {
            id: self.id,
            name: self.name@,
            dungeon_difficulty: self.dungeon_difficulty,
        }
    }
}

impl EventZoneInfo {
    pub fn id(&self) -> (r: &Id)
        ensures
            r == &self.id,
    {
        &self.id
    }

    pub fn name(&self) -> (r: &String)
        ensures
            r == &self.name,
    {
        &self.name
    }

    pub fn dungeon_difficulty(&self) -> (r: &DungeonDifficulty)
        ensures
            r == &self.dungeon_difficulty,
    {
        &self.dungeon_difficulty
    }

}

/// The record round-trips through the wire grammar.
pub open spec fn event_zone_info_wf(m: EventZoneInfoModel) -> bool {
    str_wf(m.name)
}

/// Wire text of the record, fields comma separated.
pub open spec fn spec_dump_event_zone_info(m: EventZoneInfoModel) -> Seq<char> {
    spec_dump_uint(m.id.0 as nat) + (seq![','] + (m.name + (seq![','] + (DungeonDifficulty::spec_name(m.dungeon_difficulty)))))
}

/// Parses the record's fields in declaration order.
pub open spec fn spec_parse_event_zone_info(s: Seq<char>) -> Result<(EventZoneInfoModel, Seq<char>), Error> {
    match spec_parse_uint(s, u64::MAX as nat) {
        Err(e) => Err(e),
        Ok((v_id, s1)) => {
            match spec_parse_str(s1) {
                Err(e) => Err(e),
                Ok((v_name, s2)) => {
                    match spec_parse_dungeon_difficulty(s2) {
                        Err(e) => Err(e),
                        Ok((v_dungeon_difficulty, s3)) => {
                            let m = EventZoneInfoModel {
                                id: Id(v_id as u64),
                                name: v_name,
                                dungeon_difficulty: v_dungeon_difficulty,
                            };
                            Ok((m, s3))
                        },
                    }
                },
            }
        },
    }
}

/// Reads one `EventZoneInfo` from the line.
pub fn parse_event_zone_info(r: &mut EsoLogReaderLine) -> (res: Result<EventZoneInfo, Error>)
    requires
        old(r).wf(),
    ensures
        final(r).wf(),
        match spec_parse_event_zone_info(old(r).remaining()) {
            Ok((m, rest)) => res is Ok && res->Ok_0@ == m && final(r).remaining() == rest,
            Err(e) => res == Err::<EventZoneInfo, Error>(e),
        },
{
    let id = Id(match r.read_uint(u64::MAX) { Ok(v) => v, Err(e) => { return Err(e); } });
    let name = match parse_string(r) { Ok(v) => v, Err(e) => { return Err(e); } };
    let dungeon_difficulty = match parse_dungeon_difficulty(r) { Ok(v) => v, Err(e) => { return Err(e); } };
    Ok(EventZoneInfo {
        id,
        name,
        dungeon_difficulty,
    })
}

impl EventZoneInfo {
    /// Appends this record's wire text.
    #[verifier::rlimit(100)]
    pub fn append_to(&self, out: &mut String)
        ensures
            final(out)@ == old(out)@ + spec_dump_event_zone_info(self@),
    {
        proof {
            reveal_strlit(",");
            assert(","@ =~= seq![',']);
        }
        let ghost b0 = out@;
        append_uint(out, self.id.0);
        let ghost b1 = out@;
        out.append(",");
        append_str(out, self.name.as_str());
        let ghost b2 = out@;
        out.append(",");
        append_str(out, self.dungeon_difficulty.name());
        let ghost b3 = out@;
        proof {
            assert(b1 == b0 + (spec_dump_uint(self@.id.0 as nat)));
            assert(b2 == (b1 + seq![',']) + (self@.name));
            assert(b3 == (b2 + seq![',']) + (DungeonDifficulty::spec_name(self@.dungeon_difficulty)));
            assert(out@ == b3);
            let u2 = seq![','] + (DungeonDifficulty::spec_name(self@.dungeon_difficulty));
            lemma_regroup_last(b2, DungeonDifficulty::spec_name(self@.dungeon_difficulty), out@);
            assert(out@ == b2 + u2);
            let u1 = seq![','] + ((self@.name) + u2);
            lemma_regroup_comma_first(b1, self@.name, b2, u2, out@);
            assert(out@ == b1 + u1);
            let u0 = (spec_dump_uint(self@.id.0 as nat)) + u1;
            lemma_regroup_head(b0, spec_dump_uint(self@.id.0 as nat), b1, u1, out@);
            assert(out@ == b0 + u0);
            assert(out@ == b0 + spec_dump_event_zone_info(self@));
        }
    }
}

/// Parsing the dumped record yields the record.
#[verifier::rlimit(100)]
pub proof fn lemma_parse_event_zone_info_roundtrip(m: EventZoneInfoModel)
    requires
        event_zone_info_wf(m),
    ensures
        spec_parse_event_zone_info(spec_dump_event_zone_info(m)) == Ok::<(EventZoneInfoModel, Seq<char>), Error>((m, Seq::<char>::empty())),
{
    let rest = Seq::<char>::empty();
    assert(spec_dump_event_zone_info(m) =~= spec_dump_event_zone_info(m) + rest);
    let s2 = DungeonDifficulty::spec_name(m.dungeon_difficulty) + rest;
    let s1 = m.name + (seq![','] + s2);
    let s0 = spec_dump_uint(m.id.0 as nat) + (seq![','] + s1);
    lemma_comma_chop(s1);
    lemma_parse_uint_roundtrip(m.id.0 as nat, u64::MAX as nat, seq![','] + s1);
    lemma_comma_chop(s2);
    lemma_parse_str_roundtrip(m.name, seq![','] + s2);
    DungeonDifficulty::lemma_parse_roundtrip(m.dungeon_difficulty, rest);
    let v2 = DungeonDifficulty::spec_name(m.dungeon_difficulty);
    assert(v2 + rest == s2);
    let v1 = m.name + (seq![','] + v2);
    lemma_shift_rest(m.name, v2, s2, rest);
    assert(v1 + rest == s1);
    let v0 = spec_dump_uint(m.id.0 as nat) + (seq![','] + v1);
    lemma_shift_rest(spec_dump_uint(m.id.0 as nat), v1, s1, rest);
    assert(v0 + rest == s0);
    assert(spec_dump_event_zone_info(m) =~= v0);
    assert(spec_dump_event_zone_info(m) + rest == s0);
}

/// One long-running effect on the player, zipped from the two parallel
/// lists on the wire.
#[derive(Debug, Clone, Copy, PartialEq, Eq, Structural)]
pub struct LongTermEffect {
    pub ability: AbilityId,
    pub stack_count: StackCount,
}

impl LongTermEffect {
    pub fn ability(&self) -> (r: &AbilityId)
        ensures
            r == &self.ability,
    {
        &self.ability
    }

    pub fn stack_count(&self) -> (r: &StackCount)
        ensures
            r == &self.stack_count,
    {
        &self.stack_count
    }
}

/// The player's loadout: long-term effects, equipment and both ability
/// bars.
#[derive(Debug, Clone)]
pub struct EventPlayerInfo {
    pub unit_id: UnitId,
    pub long_term_effects: Vec<LongTermEffect>,
    pub equipment_info: Vec<EquipmentInfo>,
    pub primary_abilities: Vec<AbilityId>,
    pub backup_abilities: Vec<AbilityId>,
}

/// Mathematical image of [`EventPlayerInfo`].
#[verifier::ext_equal]
pub ghost struct EventPlayerInfoModel {
    pub unit_id: UnitId,
    pub long_term_effects: Seq<LongTermEffect>,
    pub equipment_info: Seq<EquipmentInfo>,
    pub primary_abilities: Seq<u64>,
    pub backup_abilities: Seq<u64>,
}

impl View for EventPlayerInfo {
    type V = EventPlayerInfoModel;

    open spec fn view(&self) -> EventPlayerInfoModel {
        EventPlayerInfoModel {
            unit_id: self.unit_id,
            long_term_effects: self.long_term_effects@,
            equipment_info: self.equipment_info@,
            primary_abilities: self.primary_abilities@.map_values(|x: AbilityId| x.0),
            backup_abilities: self.backup_abilities@.map_values(|x: AbilityId| x.0),
        }
    }
}

impl EventPlayerInfo {
    pub fn unit_id(&self) -> (r: &UnitId)
        ensures
            r == &self.unit_id,
    {
        &self.unit_id
    }

    pub fn long_term_effects(&self) -> (r: &Vec<LongTermEffect>)
        ensures
            r == &self.long_term_effects,
    {
        &self.long_term_effects
    }

    pub fn equipment_info(&self) -> (r: &Vec<EquipmentInfo>)
        ensures
            r == &self.equipment_info,
    {
        &self.equipment_info
    }

    pub fn primary_abilities(&self) -> (r: &Vec<AbilityId>)
        ensures
            r == &self.primary_abilities,
    {
        &self.primary_abilities
    }

    pub fn backup_abilities(&self) -> (r: &Vec<AbilityId>)
        ensures
            r == &self.backup_abilities,
    {
        &self.backup_abilities
    }
}

/// The ability halves of the zipped long-term effects.
pub open spec fn lte_ids(s: Seq<LongTermEffect>) -> Seq<u64> {
    s.map_values(|e: LongTermEffect| e.ability.0)
}

/// The stack-count halves of the zipped long-term effects.
pub open spec fn lte_counts(s: Seq<LongTermEffect>) -> Seq<u64> {
    s.map_values(|e: LongTermEffect| e.stack_count.0)
}

/// Zip of the two wire lists; the shorter list wins, extra tail entries
/// are dropped.
pub open spec fn zip_effects(ids: Seq<u64>, counts: Seq<u64>) -> Seq<LongTermEffect> {
    Seq::new(if ids.len() <= counts.len() {
        ids.len()
    } else {
        counts.len()
    }, |i: int| LongTermEffect { ability: AbilityId(ids[i]), stack_count: StackCount(counts[i]) })
}

/// The record round-trips through the wire grammar.
pub open spec fn event_player_info_wf(m: EventPlayerInfoModel) -> bool {
    true
}

/// Wire text of the record, fields comma separated.
pub open spec fn spec_dump_event_player_info(m: EventPlayerInfoModel) -> Seq<char> {
    spec_dump_uint(m.unit_id.0 as nat) + (seq![','] + (spec_dump_uint_list(lte_ids(m.long_term_effects))
        + (seq![','] + (spec_dump_uint_list(lte_counts(m.long_term_effects))
        + (seq![','] + (spec_dump_equipment_list(m.equipment_info)
        + (seq![','] + (spec_dump_uint_list(m.primary_abilities)
        + (seq![','] + spec_dump_uint_list(m.backup_abilities))))))))))
}

/// Parses the record's fields in declaration order, zipping the two
/// long-term-effect lists.
pub open spec fn spec_parse_event_player_info(s: Seq<char>) -> Result<(EventPlayerInfoModel, Seq<char>), Error> {
    match spec_parse_uint(s, u64::MAX as nat) {
        Err(e) => Err(e),
        Ok((v_unit_id, s1)) => match spec_parse_list_uint(s1, u64::MAX as nat) {
            Err(e) => Err(e),
            Ok((ids, s2)) => match spec_parse_list_uint(s2, u64::MAX as nat) {
                Err(e) => Err(e),
                Ok((counts, s3)) => match spec_parse_equipment_list(s3) {
                    Err(e) => Err(e),
                    Ok((equipment, s4)) => match spec_parse_list_uint(s4, u64::MAX as nat) {
                        Err(e) => Err(e),
                        Ok((primary, s5)) => match spec_parse_list_uint(s5, u64::MAX as nat) {
                            Err(e) => Err(e),
                            Ok((backup, s6)) => Ok((EventPlayerInfoModel {
                                unit_id: UnitId(v_unit_id as u64),
                                long_term_effects: zip_effects(ids, counts),
                                equipment_info: equipment,
                                primary_abilities: primary,
                                backup_abilities: backup,
                            }, s6)),
                        },
                    },
                },
            },
        },
    }
}

/// Reads one `EventPlayerInfo` from the line.
pub fn parse_event_player_info(r: &mut EsoLogReaderLine) -> (res: Result<EventPlayerInfo, Error>)
    requires
        old(r).wf(),
    ensures
        final(r).wf(),
        match spec_parse_event_player_info(old(r).remaining()) {
            Ok((m, rest)) => res is Ok && res->Ok_0@ == m && final(r).remaining() == rest,
            Err(e) => res == Err::<EventPlayerInfo, Error>(e),
        },
{
    let unit_id = UnitId(match r.read_uint(u64::MAX) {
        Ok(v) => v,
        Err(e) => {
            return Err(e);
        },
    });
    let ids = match parse_list_uint(r, u64::MAX) {
        Ok(v) => v,
        Err(e) => {
            return Err(e);
        },
    };
    let counts = match parse_list_uint(r, u64::MAX) {
        Ok(v) => v,
        Err(e) => {
            return Err(e);
        },
    };
    let equipment_info = match parse_equipment_list(r) {
        Ok(v) => v,
        Err(e) => {
            return Err(e);
        },
    };
    let primary_abilities = match parse_list_uint(r, u64::MAX) {
        Ok(v) => map_ability_id(v),
        Err(e) => {
            return Err(e);
        },
    };
    let backup_abilities = match parse_list_uint(r, u64::MAX) {
        Ok(v) => map_ability_id(v),
        Err(e) => {
            return Err(e);
        },
    };
    let n = if ids.len() <= counts.len() {
        ids.len()
    } else {
        counts.len()
    };
    let mut long_term_effects: Vec<LongTermEffect> = Vec::new();
    let mut i: usize = 0;
    while i < n
        invariant
            n == (if ids@.len() <= counts@.len() { ids@.len() } else { counts@.len() }),
            i <= n,
            long_term_effects@.len() == i,
            forall|j: int| 0 <= j < i ==> long_term_effects@[j]
                == (LongTermEffect { ability: AbilityId(ids@[j]), stack_count: StackCount(counts@[j]) }),
        decreases n - i,
    {
        long_term_effects.push(LongTermEffect {
            ability: AbilityId(ids[i]),
            stack_count: StackCount(counts[i]),
        });
        i = i + 1;
    }
    proof {
        assert(long_term_effects@ =~= zip_effects(ids@, counts@));
    }
    Ok(EventPlayerInfo { unit_id, long_term_effects, equipment_info, primary_abilities, backup_abilities })
}

impl EventPlayerInfo {
    /// Appends this record's wire text.
    #[verifier::rlimit(100)]
    pub fn append_to(&self, out: &mut String)
        ensures
            final(out)@ == old(out)@ + spec_dump_event_player_info(self@),
    {
        proof {
            reveal_strlit(",");
            assert(","@ =~= seq![',']);
        }
        let mut ids: Vec<u64> = Vec::new();
        let mut counts: Vec<u64> = Vec::new();
        let mut i: usize = 0;
        while i < self.long_term_effects.len()
            invariant
                i <= self.long_term_effects@.len(),
                ids@.len() == i,
                counts@.len() == i,
                forall|j: int| 0 <= j < i ==> ids@[j] == self.long_term_effects@[j].ability.0,
                forall|j: int| 0 <= j < i ==> counts@[j] == self.long_term_effects@[j].stack_count.0,
            decreases self.long_term_effects@.len() - i,
        {
            ids.push(self.long_term_effects[i].ability.0);
            counts.push(self.long_term_effects[i].stack_count.0);
            i = i + 1;
        }
        proof {
            assert(ids@ =~= lte_ids(self@.long_term_effects));
            assert(counts@ =~= lte_counts(self@.long_term_effects));
        }
        let ghost b0 = out@;
        append_uint(out, self.unit_id.0);
        out.append(",");
        let ghost b1 = out@;
        append_uint_list(out, &ids);
        out.append(",");
        let ghost b2 = out@;
        append_uint_list(out, &counts);
        out.append(",");
        let ghost b3 = out@;
        append_equipment_list(out, &self.equipment_info);
        out.append(",");
        let ghost b4 = out@;
        append_uint_list_ability_id(out, &self.primary_abilities);
        out.append(",");
        let ghost b5 = out@;
        append_uint_list_ability_id(out, &self.backup_abilities);
        proof {
            let d0 = spec_dump_uint(self@.unit_id.0 as nat);
            let d1 = spec_dump_uint_list(lte_ids(self@.long_term_effects));
            let d2 = spec_dump_uint_list(lte_counts(self@.long_term_effects));
            let d3 = spec_dump_equipment_list(self@.equipment_info);
            let d4 = spec_dump_uint_list(self@.primary_abilities);
            let d5 = spec_dump_uint_list(self@.backup_abilities);
            let v5 = d5;
            let v4 = d4 + (seq![','] + v5);
            let v3 = d3 + (seq![','] + v4);
            let v2 = d2 + (seq![','] + v3);
            let v1 = d1 + (seq![','] + v2);
            let v0 = d0 + (seq![','] + v1);
            assert(out@ =~= b5 + v5);
            assert(b5 =~= (b4 + d4) + seq![',']);
            assert(out@ =~= b4 + v4);
            assert(b4 =~= (b3 + d3) + seq![',']);
            assert(out@ =~= b3 + v3);
            assert(b3 =~= (b2 + d2) + seq![',']);
            assert(out@ =~= b2 + v2);
            assert(b2 =~= (b1 + d1) + seq![',']);
            assert(out@ =~= b1 + v1);
            assert(b1 =~= (b0 + d0) + seq![',']);
            assert(out@ =~= b0 + v0);
            assert(spec_dump_event_player_info(self@) =~= v0);
        }
    }
}

/// Parsing the dumped record yields the record.
#[verifier::rlimit(100)]
pub proof fn lemma_parse_event_player_info_roundtrip(m: EventPlayerInfoModel)
    requires
        event_player_info_wf(m),
    ensures
        spec_parse_event_player_info(spec_dump_event_player_info(m)) == Ok::<(EventPlayerInfoModel, Seq<char>), Error>((m, Seq::<char>::empty())),
{
    let rest = Seq::<char>::empty();
    let d0 = spec_dump_uint(m.unit_id.0 as nat);
    let d1 = spec_dump_uint_list(lte_ids(m.long_term_effects));
    let d2 = spec_dump_uint_list(lte_counts(m.long_term_effects));
    let d3 = spec_dump_equipment_list(m.equipment_info);
    let d4 = spec_dump_uint_list(m.primary_abilities);
    let d5 = spec_dump_uint_list(m.backup_abilities);
    let s5 = d5 + rest;
    let s4 = d4 + (seq![','] + s5);
    let s3 = d3 + (seq![','] + s4);
    let s2 = d2 + (seq![','] + s3);
    let s1 = d1 + (seq![','] + s2);
    let s0 = d0 + (seq![','] + s1);
    lemma_comma_chop(s1);
    lemma_parse_uint_roundtrip(m.unit_id.0 as nat, u64::MAX as nat, seq![','] + s1);
    lemma_comma_chop(s2);
    lemma_parse_list_uint_roundtrip(lte_ids(m.long_term_effects), u64::MAX as nat, seq![','] + s2);
    lemma_comma_chop(s3);
    lemma_parse_list_uint_roundtrip(lte_counts(m.long_term_effects), u64::MAX as nat, seq![','] + s3);
    lemma_comma_chop(s4);
    lemma_parse_equipment_list_roundtrip(m.equipment_info, seq![','] + s4);
    lemma_comma_chop(s5);
    lemma_parse_list_uint_roundtrip(m.primary_abilities, u64::MAX as nat, seq![','] + s5);
    lemma_parse_list_uint_roundtrip(m.backup_abilities, u64::MAX as nat, rest);
    assert(zip_effects(lte_ids(m.long_term_effects), lte_counts(m.long_term_effects)) =~= m.long_term_effects);
    let v5 = d5;
    assert(v5 + rest == s5) by {
        assert(v5 + rest =~= s5);
    }
    let v4 = d4 + (seq![','] + v5);
    lemma_shift_rest(d4, v5, s5, rest);
    let v3 = d3 + (seq![','] + v4);
    lemma_shift_rest(d3, v4, s4, rest);
    let v2 = d2 + (seq![','] + v3);
    lemma_shift_rest(d2, v3, s3, rest);
    let v1 = d1 + (seq![','] + v2);
    lemma_shift_rest(d1, v2, s2, rest);
    let v0 = d0 + (seq![','] + v1);
    lemma_shift_rest(d0, v1, s1, rest);
    assert(spec_dump_event_player_info(m) =~= v0);
    assert(spec_dump_event_player_info(m) + rest == s0) by {
        assert(v0 + rest == s0);
        assert(spec_dump_event_player_info(m) + rest =~= v0 + rest);
    }
    let got = spec_parse_event_player_info(s0);
    assert(got is Ok);
    assert(got->Ok_0.0 =~= m);
}

/// The closed set of event bodies.
#[derive(Debug, Clone)]
pub enum EventType {
    AbilityInfo(EventAbilityInfo),
    BeginCast(EventBeginCast),
    BeginCombat(EventBeginCombat),
    BeginLog(EventBeginLog),
    BeginTrial(EventBeginTrial),
    CombatEvent(EventCombatEvent),
    EffectChanged(EventEffectChanged),
    EffectInfo(EventEffectInfo),
    EndCast(EventEndCast),
    EndCombat(EventEndCombat),
    EndLog(EventEndLog),
    EndTrial(EventEndTrial),
    HealthRegen(EventHealthRegen),
    MapChanged(EventMapInfo),
    PlayerInfo(EventPlayerInfo),
    TrialInit(EventTrialInit),
    UnitAdded(EventUnitAdded),
    UnitChanged(EventUnitChanged),
    UnitRemoved(EventUnitRemoved),
    ZoneChanged(EventZoneInfo),
}

/// Mathematical image of [`EventType`].
#[verifier::ext_equal]
pub ghost enum EventBodyModel {
    AbilityInfo(EventAbilityInfoModel),
    BeginCast(EventBeginCast),
    BeginCombat(EventBeginCombat),
    BeginLog(EventBeginLogModel),
    BeginTrial(EventBeginTrial),
    CombatEvent(EventCombatEvent),
    EffectChanged(EventEffectChanged),
    EffectInfo(EventEffectInfo),
    EndCast(EventEndCast),
    EndCombat(EventEndCombat),
    EndLog(EventEndLog),
    EndTrial(EventEndTrial),
    HealthRegen(EventHealthRegen),
    MapChanged(EventMapInfoModel),
    PlayerInfo(EventPlayerInfoModel),
    TrialInit(EventTrialInit),
    UnitAdded(EventUnitAddedModel),
    UnitChanged(EventUnitChangedModel),
    UnitRemoved(EventUnitRemoved),
    ZoneChanged(EventZoneInfoModel),
}

impl View for EventType {
    type V = EventBodyModel;

    open spec fn view(&self) -> EventBodyModel {
        match self {
            EventType::AbilityInfo(e) => EventBodyModel::AbilityInfo(e@),
            EventType::BeginCast(e) => EventBodyModel::BeginCast(*e),
            EventType::BeginCombat(e) => EventBodyModel::BeginCombat(*e),
            EventType::BeginLog(e) => EventBodyModel::BeginLog(e@),
            EventType::BeginTrial(e) => EventBodyModel::BeginTrial(*e),
            EventType::CombatEvent(e) => EventBodyModel::CombatEvent(*e),
            EventType::EffectChanged(e) => EventBodyModel::EffectChanged(*e),
            EventType::EffectInfo(e) => EventBodyModel::EffectInfo(*e),
            EventType::EndCast(e) => EventBodyModel::EndCast(*e),
            EventType::EndCombat(e) => EventBodyModel::EndCombat(*e),
            EventType::EndLog(e) => EventBodyModel::EndLog(*e),
            EventType::EndTrial(e) => EventBodyModel::EndTrial(*e),
            EventType::HealthRegen(e) => EventBodyModel::HealthRegen(*e),
            EventType::MapChanged(e) => EventBodyModel::MapChanged(e@),
            EventType::PlayerInfo(e) => EventBodyModel::PlayerInfo(e@),
            EventType::TrialInit(e) => EventBodyModel::TrialInit(*e),
            EventType::UnitAdded(e) => EventBodyModel::UnitAdded(e@),
            EventType::UnitChanged(e) => EventBodyModel::UnitChanged(e@),
            EventType::UnitRemoved(e) => EventBodyModel::UnitRemoved(*e),
            EventType::ZoneChanged(e) => EventBodyModel::ZoneChanged(e@),
        }
    }
}

impl EventType {
    /// The payload, when this is a `AbilityInfo` body.
    pub fn ability_info(&self) -> (r: Option<&EventAbilityInfo>)
        ensures
            r == (match self { EventType::AbilityInfo(e) => Some(e), _ => None::<&EventAbilityInfo> }),
    {
        if let EventType::AbilityInfo(e) = self {
            Some(e)
        } else {
            None
        }
    }

    /// The payload, when this is a `BeginCast` body.
    pub fn begin_cast(&self) -> (r: Option<&EventBeginCast>)
        ensures
            r == (match self { EventType::BeginCast(e) => Some(e), _ => None::<&EventBeginCast> }),
    {
        if let EventType::BeginCast(e) = self {
            Some(e)
        } else {
            None
        }
    }

    /// The payload, when this is a `BeginCombat` body.
    pub fn begin_combat(&self) -> (r: Option<&EventBeginCombat>)
        ensures
            r == (match self { EventType::BeginCombat(e) => Some(e), _ => None::<&EventBeginCombat> }),
    {
        if let EventType::BeginCombat(e) = self {
            Some(e)
        } else {
            None
        }
    }

    /// The payload, when this is a `BeginLog` body.
    pub fn begin_log(&self) -> (r: Option<&EventBeginLog>)
        ensures
            r == (match self { EventType::BeginLog(e) => Some(e), _ => None::<&EventBeginLog> }),
    {
        if let EventType::BeginLog(e) = self {
            Some(e)
        } else {
            None
        }
    }

    /// The payload, when this is a `BeginTrial` body.
    pub fn begin_trial(&self) -> (r: Option<&EventBeginTrial>)
        ensures
            r == (match self { EventType::BeginTrial(e) => Some(e), _ => None::<&EventBeginTrial> }),
    {
        if let EventType::BeginTrial(e) = self {
            Some(e)
        } else {
            None
        }
    }

    /// The payload, when this is a `CombatEvent` body.
    pub fn combat_event(&self) -> (r: Option<&EventCombatEvent>)
        ensures
            r == (match self { EventType::CombatEvent(e) => Some(e), _ => None::<&EventCombatEvent> }),
    {
        if let EventType::CombatEvent(e) = self {
            Some(e)
        } else {
            None
        }
    }

    /// The payload, when this is a `EffectChanged` body.
    pub fn effect_changed(&self) -> (r: Option<&EventEffectChanged>)
        ensures
            r == (match self { EventType::EffectChanged(e) => Some(e), _ => None::<&EventEffectChanged> }),
    {
        if let EventType::EffectChanged(e) = self {
            Some(e)
        } else {
            None
        }
    }

    /// The payload, when this is a `EffectInfo` body.
    pub fn effect_info(&self) -> (r: Option<&EventEffectInfo>)
        ensures
            r == (match self { EventType::EffectInfo(e) => Some(e), _ => None::<&EventEffectInfo> }),
    {
        if let EventType::EffectInfo(e) = self {
            Some(e)
        } else {
            None
        }
    }

    /// The payload, when this is a `EndCast` body.
    pub fn end_cast(&self) -> (r: Option<&EventEndCast>)
        ensures
            r == (match self { EventType::EndCast(e) => Some(e), _ => None::<&EventEndCast> }),
    {
        if let EventType::EndCast(e) = self {
            Some(e)
        } else {
            None
        }
    }

    /// The payload, when this is a `EndCombat` body.
    pub fn end_combat(&self) -> (r: Option<&EventEndCombat>)
        ensures
            r == (match self { EventType::EndCombat(e) => Some(e), _ => None::<&EventEndCombat> }),
    {
        if let EventType::EndCombat(e) = self {
            Some(e)
        } else {
            None
        }
    }

    /// The payload, when this is a `EndLog` body.
    pub fn end_log(&self) -> (r: Option<&EventEndLog>)
        ensures
            r == (match self { EventType::EndLog(e) => Some(e), _ => None::<&EventEndLog> }),
    {
        if let EventType::EndLog(e) = self {
            Some(e)
        } else {
            None
        }
    }

    /// The payload, when this is a `EndTrial` body.
    pub fn end_trial(&self) -> (r: Option<&EventEndTrial>)
        ensures
            r == (match self { EventType::EndTrial(e) => Some(e), _ => None::<&EventEndTrial> }),
    {
        if let EventType::EndTrial(e) = self {
            Some(e)
        } else {
            None
        }
    }

    /// The payload, when this is a `HealthRegen` body.
    pub fn health_regen(&self) -> (r: Option<&EventHealthRegen>)
        ensures
            r == (match self { EventType::HealthRegen(e) => Some(e), _ => None::<&EventHealthRegen> }),
    {
        if let EventType::HealthRegen(e) = self {
            Some(e)
        } else {
            None
        }
    }

    /// The payload, when this is a `MapChanged` body.
    pub fn map_info(&self) -> (r: Option<&EventMapInfo>)
        ensures
            r == (match self { EventType::MapChanged(e) => Some(e), _ => None::<&EventMapInfo> }),
    {
        if let EventType::MapChanged(e) = self {
            Some(e)
        } else {
            None
        }
    }

    /// The payload, when this is a `PlayerInfo` body.
    pub fn player_info(&self) -> (r: Option<&EventPlayerInfo>)
        ensures
            r == (match self { EventType::PlayerInfo(e) => Some(e), _ => None::<&EventPlayerInfo> }),
    {
        if let EventType::PlayerInfo(e) = self {
            Some(e)
        } else {
            None
        }
    }

    /// The payload, when this is a `TrialInit` body.
    pub fn trial_init(&self) -> (r: Option<&EventTrialInit>)
        ensures
            r == (match self { EventType::TrialInit(e) => Some(e), _ => None::<&EventTrialInit> }),
    {
        if let EventType::TrialInit(e) = self {
            Some(e)
        } else {
            None
        }
    }

    /// The payload, when this is a `UnitAdded` body.
    pub fn unit_added(&self) -> (r: Option<&EventUnitAdded>)
        ensures
            r == (match self { EventType::UnitAdded(e) => Some(e), _ => None::<&EventUnitAdded> }),
    {
        if let EventType::UnitAdded(e) = self {
            Some(e)
        } else {
            None
        }
    }

    /// The payload, when this is a `UnitChanged` body.
    pub fn unit_changed(&self) -> (r: Option<&EventUnitChanged>)
        ensures
            r == (match self { EventType::UnitChanged(e) => Some(e), _ => None::<&EventUnitChanged> }),
    {
        if let EventType::UnitChanged(e) = self {
            Some(e)
        } else {
            None
        }
    }

    /// The payload, when this is a `UnitRemoved` body.
    pub fn unit_removed(&self) -> (r: Option<&EventUnitRemoved>)
        ensures
            r == (match self { EventType::UnitRemoved(e) => Some(e), _ => None::<&EventUnitRemoved> }),
    {
        if let EventType::UnitRemoved(e) = self {
            Some(e)
        } else {
            None
        }
    }

    /// The payload, when this is a `ZoneChanged` body.
    pub fn zone_info(&self) -> (r: Option<&EventZoneInfo>)
        ensures
            r == (match self { EventType::ZoneChanged(e) => Some(e), _ => None::<&EventZoneInfo> }),
    {
        if let EventType::ZoneChanged(e) = self {
            Some(e)
        } else {
            None
        }
    }

}

/// One parsed line of the encounter log.
#[derive(Debug, Clone)]
pub struct Event {
    pub timestamp: EsoDuration,
    pub event: EventType,
}

/// Mathematical image of [`Event`].
#[verifier::ext_equal]
pub ghost struct EventModel {
    pub timestamp: u64,
    pub body: EventBodyModel,
}

impl View for Event {
    type V = EventModel;

    open spec fn view(&self) -> EventModel {
        EventModel { timestamp: self.timestamp.0, body: self.event@ }
    }
}

/// The event round-trips through the wire grammar.
pub open spec fn event_wf(e: EventModel) -> bool {
    match e.body {
        EventBodyModel::AbilityInfo(m) => event_ability_info_wf(m),
        EventBodyModel::BeginCast(m) => event_begin_cast_wf(m),
        EventBodyModel::BeginCombat(_) => true,
        EventBodyModel::BeginLog(m) => event_begin_log_wf(m),
        EventBodyModel::BeginTrial(m) => event_begin_trial_wf(m),
        EventBodyModel::CombatEvent(m) => event_combat_event_wf(m),
        EventBodyModel::EffectChanged(m) => event_effect_changed_wf(m),
        EventBodyModel::EffectInfo(m) => event_effect_info_wf(m),
        EventBodyModel::EndCast(m) => event_end_cast_wf(m),
        EventBodyModel::EndCombat(_) => true,
        EventBodyModel::EndLog(_) => true,
        EventBodyModel::EndTrial(m) => event_end_trial_wf(m),
        EventBodyModel::HealthRegen(m) => event_health_regen_wf(m),
        EventBodyModel::MapChanged(m) => event_map_info_wf(m),
        EventBodyModel::PlayerInfo(m) => event_player_info_wf(m),
        EventBodyModel::TrialInit(m) => event_trial_init_wf(m),
        EventBodyModel::UnitAdded(m) => event_unit_added_wf(m),
        EventBodyModel::UnitChanged(m) => event_unit_changed_wf(m),
        EventBodyModel::UnitRemoved(m) => event_unit_removed_wf(m),
        EventBodyModel::ZoneChanged(m) => event_zone_info_wf(m),
    }
}

/// Wire text of an event: timestamp, tag, then the body's fields.
pub open spec fn spec_dump_event(e: EventModel) -> Seq<char> {
    spec_dump_uint(e.timestamp as nat) + (seq![','] + (match e.body {
        EventBodyModel::AbilityInfo(m) => EventTag::AbilityInfo.spec_name() + (seq![','] + spec_dump_event_ability_info(m)),
        EventBodyModel::BeginCast(m) => EventTag::BeginCast.spec_name() + (seq![','] + spec_dump_event_begin_cast(m)),
        EventBodyModel::BeginCombat(_) => EventTag::BeginCombat.spec_name(),
        EventBodyModel::BeginLog(m) => EventTag::BeginLog.spec_name() + (seq![','] + spec_dump_event_begin_log(m)),
        EventBodyModel::BeginTrial(m) => EventTag::BeginTrial.spec_name() + (seq![','] + spec_dump_event_begin_trial(m)),
        EventBodyModel::CombatEvent(m) => EventTag::CombatEvent.spec_name() + (seq![','] + spec_dump_event_combat_event(m)),
        EventBodyModel::EffectChanged(m) => EventTag::EffectChanged.spec_name() + (seq![','] + spec_dump_event_effect_changed(m)),
        EventBodyModel::EffectInfo(m) => EventTag::EffectInfo.spec_name() + (seq![','] + spec_dump_event_effect_info(m)),
        EventBodyModel::EndCast(m) => EventTag::EndCast.spec_name() + (seq![','] + spec_dump_event_end_cast(m)),
        EventBodyModel::EndCombat(_) => EventTag::EndCombat.spec_name(),
        EventBodyModel::EndLog(_) => EventTag::EndLog.spec_name(),
        EventBodyModel::EndTrial(m) => EventTag::EndTrial.spec_name() + (seq![','] + spec_dump_event_end_trial(m)),
        EventBodyModel::HealthRegen(m) => EventTag::HealthRegen.spec_name() + (seq![','] + spec_dump_event_health_regen(m)),
        EventBodyModel::MapChanged(m) => EventTag::MapChanged.spec_name() + (seq![','] + spec_dump_event_map_info(m)),
        EventBodyModel::PlayerInfo(m) => EventTag::PlayerInfo.spec_name() + (seq![','] + spec_dump_event_player_info(m)),
        EventBodyModel::TrialInit(m) => EventTag::TrialInit.spec_name() + (seq![','] + spec_dump_event_trial_init(m)),
        EventBodyModel::UnitAdded(m) => EventTag::UnitAdded.spec_name() + (seq![','] + spec_dump_event_unit_added(m)),
        EventBodyModel::UnitChanged(m) => EventTag::UnitChanged.spec_name() + (seq![','] + spec_dump_event_unit_changed(m)),
        EventBodyModel::UnitRemoved(m) => EventTag::UnitRemoved.spec_name() + (seq![','] + spec_dump_event_unit_removed(m)),
        EventBodyModel::ZoneChanged(m) => EventTag::ZoneChanged.spec_name() + (seq![','] + spec_dump_event_zone_info(m)),
    }))
}

/// Parses one full line into an event, demanding that nothing is left.
pub open spec fn spec_parse_one(line: Seq<char>) -> Result<EventModel, Error> {
    match spec_parse_uint(line, u64::MAX as nat) {
        Err(e) => Err(e),
        Ok((ts, s1)) => match spec_parse_event_tag(s1) {
            Err(e) => Err(e),
            Ok((tag, s2)) => match tag {
                EventTag::AbilityInfo => match spec_parse_event_ability_info(s2) {
                    Err(e) => Err(e),
                    Ok((m, s3)) => if s3.len() == 0 {
                        Ok(EventModel { timestamp: ts as u64, body: EventBodyModel::AbilityInfo(m) })
                    } else {
                        Err(Error::ReaderNotExhausted)
                    },
                },
                EventTag::BeginCast => match spec_parse_event_begin_cast(s2) {
                    Err(e) => Err(e),
                    Ok((m, s3)) => if s3.len() == 0 {
                        Ok(EventModel { timestamp: ts as u64, body: EventBodyModel::BeginCast(m) })
                    } else {
                        Err(Error::ReaderNotExhausted)
                    },
                },
                EventTag::BeginCombat => if s2.len() == 0 {
                    Ok(EventModel { timestamp: ts as u64, body: EventBodyModel::BeginCombat(EventBeginCombat {  }) })
                } else {
                    Err(Error::ReaderNotExhausted)
                },
                EventTag::BeginLog => match spec_parse_event_begin_log(s2) {
                    Err(e) => Err(e),
                    Ok((m, s3)) => if s3.len() == 0 {
                        Ok(EventModel { timestamp: ts as u64, body: EventBodyModel::BeginLog(m) })
                    } else {
                        Err(Error::ReaderNotExhausted)
                    },
                },
                EventTag::BeginTrial => match spec_parse_event_begin_trial(s2) {
                    Err(e) => Err(e),
                    Ok((m, s3)) => if s3.len() == 0 {
                        Ok(EventModel { timestamp: ts as u64, body: EventBodyModel::BeginTrial(m) })
                    } else {
                        Err(Error::ReaderNotExhausted)
                    },
                },
                EventTag::CombatEvent => match spec_parse_event_combat_event(s2) {
                    Err(e) => Err(e),
                    Ok((m, s3)) => if s3.len() == 0 {
                        Ok(EventModel { timestamp: ts as u64, body: EventBodyModel::CombatEvent(m) })
                    } else {
                        Err(Error::ReaderNotExhausted)
                    },
                },
                EventTag::EffectChanged => match spec_parse_event_effect_changed(s2) {
                    Err(e) => Err(e),
                    Ok((m, s3)) => if s3.len() == 0 {
                        Ok(EventModel { timestamp: ts as u64, body: EventBodyModel::EffectChanged(m) })
                    } else {
                        Err(Error::ReaderNotExhausted)
                    },
                },
                EventTag::EffectInfo => match spec_parse_event_effect_info(s2) {
                    Err(e) => Err(e),
                    Ok((m, s3)) => if s3.len() == 0 {
                        Ok(EventModel { timestamp: ts as u64, body: EventBodyModel::EffectInfo(m) })
                    } else {
                        Err(Error::ReaderNotExhausted)
                    },
                },
                EventTag::EndCast => match spec_parse_event_end_cast(s2) {
                    Err(e) => Err(e),
                    Ok((m, s3)) => if s3.len() == 0 {
                        Ok(EventModel { timestamp: ts as u64, body: EventBodyModel::EndCast(m) })
                    } else {
                        Err(Error::ReaderNotExhausted)
                    },
                },
                EventTag::EndCombat => if s2.len() == 0 {
                    Ok(EventModel { timestamp: ts as u64, body: EventBodyModel::EndCombat(EventEndCombat {  }) })
                } else {
                    Err(Error::ReaderNotExhausted)
                },
                EventTag::EndLog => if s2.len() == 0 {
                    Ok(EventModel { timestamp: ts as u64, body: EventBodyModel::EndLog(EventEndLog {  }) })
                } else {
                    Err(Error::ReaderNotExhausted)
                },
                EventTag::EndTrial => match spec_parse_event_end_trial(s2) {
                    Err(e) => Err(e),
                    Ok((m, s3)) => if s3.len() == 0 {
                        Ok(EventModel { timestamp: ts as u64, body: EventBodyModel::EndTrial(m) })
                    } else {
                        Err(Error::ReaderNotExhausted)
                    },
                },
                EventTag::HealthRegen => match spec_parse_event_health_regen(s2) {
                    Err(e) => Err(e),
                    Ok((m, s3)) => if s3.len() == 0 {
                        Ok(EventModel { timestamp: ts as u64, body: EventBodyModel::HealthRegen(m) })
                    } else {
                        Err(Error::ReaderNotExhausted)
                    },
                },
                EventTag::MapChanged => match spec_parse_event_map_info(s2) {
                    Err(e) => Err(e),
                    Ok((m, s3)) => if s3.len() == 0 {
                        Ok(EventModel { timestamp: ts as u64, body: EventBodyModel::MapChanged(m) })
                    } else {
                        Err(Error::ReaderNotExhausted)
                    },
                },
                EventTag::PlayerInfo => match spec_parse_event_player_info(s2) {
                    Err(e) => Err(e),
                    Ok((m, s3)) => if s3.len() == 0 {
                        Ok(EventModel { timestamp: ts as u64, body: EventBodyModel::PlayerInfo(m) })
                    } else {
                        Err(Error::ReaderNotExhausted)
                    },
                },
                EventTag::TrialInit => match spec_parse_event_trial_init(s2) {
                    Err(e) => Err(e),
                    Ok((m, s3)) => if s3.len() == 0 {
                        Ok(EventModel { timestamp: ts as u64, body: EventBodyModel::TrialInit(m) })
                    } else {
                        Err(Error::ReaderNotExhausted)
                    },
                },
                EventTag::UnitAdded => match spec_parse_event_unit_added(s2) {
                    Err(e) => Err(e),
                    Ok((m, s3)) => if s3.len() == 0 {
                        Ok(EventModel { timestamp: ts as u64, body: EventBodyModel::UnitAdded(m) })
                    } else {
                        Err(Error::ReaderNotExhausted)
                    },
                },
                EventTag::UnitChanged => match spec_parse_event_unit_changed(s2) {
                    Err(e) => Err(e),
                    Ok((m, s3)) => if s3.len() == 0 {
                        Ok(EventModel { timestamp: ts as u64, body: EventBodyModel::UnitChanged(m) })
                    } else {
                        Err(Error::ReaderNotExhausted)
                    },
                },
                EventTag::UnitRemoved => match spec_parse_event_unit_removed(s2) {
                    Err(e) => Err(e),
                    Ok((m, s3)) => if s3.len() == 0 {
                        Ok(EventModel { timestamp: ts as u64, body: EventBodyModel::UnitRemoved(m) })
                    } else {
                        Err(Error::ReaderNotExhausted)
                    },
                },
                EventTag::ZoneChanged => match spec_parse_event_zone_info(s2) {
                    Err(e) => Err(e),
                    Ok((m, s3)) => if s3.len() == 0 {
                        Ok(EventModel { timestamp: ts as u64, body: EventBodyModel::ZoneChanged(m) })
                    } else {
                        Err(Error::ReaderNotExhausted)
                    },
                },
            },
        },
    }
}

impl Event {
    /// Parses a single log line.
    #[verifier::rlimit(100)]
    pub fn parse(s: &str) -> (res: Result<Event, Error>)
        ensures
            match spec_parse_one(s@) {
                Ok(m) => res is Ok && res->Ok_0@ == m,
                Err(e) => res == Err::<Event, Error>(e),
            },
    {
        let mut r = EsoLogReaderLine::new(s);
        let ts = match r.read_uint(u64::MAX) {
            Ok(v) => v,
            Err(e) => {
                return Err(e);
            },
        };
        let tag = match parse_event_tag(&mut r) {
            Ok(v) => v,
            Err(e) => {
                return Err(e);
            },
        };
        let event = match tag {
            EventTag::AbilityInfo => EventType::AbilityInfo(match parse_event_ability_info(&mut r) {
                Ok(v) => v,
                Err(e) => {
                    return Err(e);
                },
            }),
            EventTag::BeginCast => EventType::BeginCast(match parse_event_begin_cast(&mut r) {
                Ok(v) => v,
                Err(e) => {
                    return Err(e);
                },
            }),
            EventTag::BeginCombat => EventType::BeginCombat(EventBeginCombat {  }),
            EventTag::BeginLog => EventType::BeginLog(match parse_event_begin_log(&mut r) {
                Ok(v) => v,
                Err(e) => {
                    return Err(e);
                },
            }),
            EventTag::BeginTrial => EventType::BeginTrial(match parse_event_begin_trial(&mut r) {
                Ok(v) => v,
                Err(e) => {
                    return Err(e);
                },
            }),
            EventTag::CombatEvent => EventType::CombatEvent(match parse_event_combat_event(&mut r) {
                Ok(v) => v,
                Err(e) => {
                    return Err(e);
                },
            }),
            EventTag::EffectChanged => EventType::EffectChanged(match parse_event_effect_changed(&mut r) {
                Ok(v) => v,
                Err(e) => {
                    return Err(e);
                },
            }),
            EventTag::EffectInfo => EventType::EffectInfo(match parse_event_effect_info(&mut r) {
                Ok(v) => v,
                Err(e) => {
                    return Err(e);
                },
            }),
            EventTag::EndCast => EventType::EndCast(match parse_event_end_cast(&mut r) {
                Ok(v) => v,
                Err(e) => {
                    return Err(e);
                },
            }),
            EventTag::EndCombat => EventType::EndCombat(EventEndCombat {  }),
            EventTag::EndLog => EventType::EndLog(EventEndLog {  }),
            EventTag::EndTrial => EventType::EndTrial(match parse_event_end_trial(&mut r) {
                Ok(v) => v,
                Err(e) => {
                    return Err(e);
                },
            }),
            EventTag::HealthRegen => EventType::HealthRegen(match parse_event_health_regen(&mut r) {
                Ok(v) => v,
                Err(e) => {
                    return Err(e);
                },
            }),
            EventTag::MapChanged => EventType::MapChanged(match parse_event_map_info(&mut r) {
                Ok(v) => v,
                Err(e) => {
                    return Err(e);
                },
            }),
            EventTag::PlayerInfo => EventType::PlayerInfo(match parse_event_player_info(&mut r) {
                Ok(v) => v,
                Err(e) => {
                    return Err(e);
                },
            }),
            EventTag::TrialInit => EventType::TrialInit(match parse_event_trial_init(&mut r) {
                Ok(v) => v,
                Err(e) => {
                    return Err(e);
                },
            }),
            EventTag::UnitAdded => EventType::UnitAdded(match parse_event_unit_added(&mut r) {
                Ok(v) => v,
                Err(e) => {
                    return Err(e);
                },
            }),
            EventTag::UnitChanged => EventType::UnitChanged(match parse_event_unit_changed(&mut r) {
                Ok(v) => v,
                Err(e) => {
                    return Err(e);
                },
            }),
            EventTag::UnitRemoved => EventType::UnitRemoved(match parse_event_unit_removed(&mut r) {
                Ok(v) => v,
                Err(e) => {
                    return Err(e);
                },
            }),
            EventTag::ZoneChanged => EventType::ZoneChanged(match parse_event_zone_info(&mut r) {
                Ok(v) => v,
                Err(e) => {
                    return Err(e);
                },
            }),
        };
        if !r.is_depleted() {
            return Err(Error::ReaderNotExhausted);
        }
        Ok(Event { timestamp: EsoDuration(ts), event })
    }

    /// Serializes this event back to its log line.
    #[verifier::rlimit(100)]
    pub fn dump(&self) -> (res: Result<String, SerializeError>)
        ensures
            res is Ok,
            res->Ok_0@ == spec_dump_event(self@),
    {
        let mut out = String::new();
        proof {
            reveal_strlit(",");
            assert(","@ =~= seq![',']);
        }
        append_uint(&mut out, self.timestamp.0);
        out.append(",");
        let ghost b = out@;
        match &self.event {
            EventType::AbilityInfo(e) => {
                out.append(EventTag::AbilityInfo.name());
                out.append(",");
                e.append_to(&mut out);
            },
            EventType::BeginCast(e) => {
                out.append(EventTag::BeginCast.name());
                out.append(",");
                e.append_to(&mut out);
            },
            EventType::BeginCombat(_) => {
                out.append(EventTag::BeginCombat.name());
            },
            EventType::BeginLog(e) => {
                out.append(EventTag::BeginLog.name());
                out.append(",");
                e.append_to(&mut out);
            },
            EventType::BeginTrial(e) => {
                out.append(EventTag::BeginTrial.name());
                out.append(",");
                e.append_to(&mut out);
            },
            EventType::CombatEvent(e) => {
                out.append(EventTag::CombatEvent.name());
                out.append(",");
                e.append_to(&mut out);
            },
            EventType::EffectChanged(e) => {
                out.append(EventTag::EffectChanged.name());
                out.append(",");
                e.append_to(&mut out);
            },
            EventType::EffectInfo(e) => {
                out.append(EventTag::EffectInfo.name());
                out.append(",");
                e.append_to(&mut out);
            },
            EventType::EndCast(e) => {
                out.append(EventTag::EndCast.name());
                out.append(",");
                e.append_to(&mut out);
            },
            EventType::EndCombat(_) => {
                out.append(EventTag::EndCombat.name());
            },
            EventType::EndLog(_) => {
                out.append(EventTag::EndLog.name());
            },
            EventType::EndTrial(e) => {
                out.append(EventTag::EndTrial.name());
                out.append(",");
                e.append_to(&mut out);
            },
            EventType::HealthRegen(e) => {
                out.append(EventTag::HealthRegen.name());
                out.append(",");
                e.append_to(&mut out);
            },
            EventType::MapChanged(e) => {
                out.append(EventTag::MapChanged.name());
                out.append(",");
                e.append_to(&mut out);
            },
            EventType::PlayerInfo(e) => {
                out.append(EventTag::PlayerInfo.name());
                out.append(",");
                e.append_to(&mut out);
            },
            EventType::TrialInit(e) => {
                out.append(EventTag::TrialInit.name());
                out.append(",");
                e.append_to(&mut out);
            },
            EventType::UnitAdded(e) => {
                out.append(EventTag::UnitAdded.name());
                out.append(",");
                e.append_to(&mut out);
            },
            EventType::UnitChanged(e) => {
                out.append(EventTag::UnitChanged.name());
                out.append(",");
                e.append_to(&mut out);
            },
            EventType::UnitRemoved(e) => {
                out.append(EventTag::UnitRemoved.name());
                out.append(",");
                e.append_to(&mut out);
            },
            EventType::ZoneChanged(e) => {
                out.append(EventTag::ZoneChanged.name());
                out.append(",");
                e.append_to(&mut out);
            },
        }
        proof {
            assert(out@ =~= spec_dump_event(self@));
        }
        Ok(out)
    }

    pub fn timestamp(&self) -> (r: &EsoDuration)
        ensures
            r == &self.timestamp,
    {
        &self.timestamp
    }

    pub fn event(&self) -> (r: &EventType)
        ensures
            r == &self.event,
    {
        &self.event
    }
}

/// Round trip of a `AbilityInfo` line.
#[verifier::rlimit(100)]
#[verifier::spinoff_prover]
proof fn lemma_event_roundtrip_event_ability_info(e: EventModel, m: EventAbilityInfoModel)
    requires
        e.body == EventBodyModel::AbilityInfo(m),
        event_ability_info_wf(m),
    ensures
        spec_parse_one(spec_dump_event(e)) == Ok::<EventModel, Error>(e),
{
    let empty = Seq::<char>::empty();
    let body = spec_dump_event_ability_info(m);
    lemma_parse_event_ability_info_roundtrip(m);
    let s1 = EventTag::AbilityInfo.spec_name() + (seq![','] + body);
    lemma_comma_chop(body);
    EventTag::AbilityInfo.lemma_parse_roundtrip(seq![','] + body);
    let s0 = spec_dump_uint(e.timestamp as nat) + (seq![','] + s1);
    lemma_comma_chop(s1);
    lemma_parse_uint_roundtrip(e.timestamp as nat, u64::MAX as nat, seq![','] + s1);
    assert(spec_parse_event_ability_info(body + empty) == spec_parse_event_ability_info(body)) by {
        assert(body + empty =~= body);
    }
    assert(spec_dump_event(e) == s0);
    assert(spec_parse_one(spec_dump_event(e)) == Ok::<EventModel, Error>(e));
}

/// Round trip of a `BeginCast` line.
#[verifier::rlimit(100)]
#[verifier::spinoff_prover]
proof fn lemma_event_roundtrip_event_begin_cast(e: EventModel, m: EventBeginCast)
    requires
        e.body == EventBodyModel::BeginCast(m),
        event_begin_cast_wf(m),
    ensures
        spec_parse_one(spec_dump_event(e)) == Ok::<EventModel, Error>(e),
{
    let empty = Seq::<char>::empty();
    let body = spec_dump_event_begin_cast(m);
    lemma_parse_event_begin_cast_roundtrip(m);
    let s1 = EventTag::BeginCast.spec_name() + (seq![','] + body);
    lemma_comma_chop(body);
    EventTag::BeginCast.lemma_parse_roundtrip(seq![','] + body);
    let s0 = spec_dump_uint(e.timestamp as nat) + (seq![','] + s1);
    lemma_comma_chop(s1);
    lemma_parse_uint_roundtrip(e.timestamp as nat, u64::MAX as nat, seq![','] + s1);
    assert(spec_parse_event_begin_cast(body + empty) == spec_parse_event_begin_cast(body)) by {
        assert(body + empty =~= body);
    }
    assert(spec_dump_event(e) == s0);
    assert(spec_parse_one(spec_dump_event(e)) == Ok::<EventModel, Error>(e));
}

/// Round trip of a `BeginCombat` line.
#[verifier::rlimit(100)]
#[verifier::spinoff_prover]
proof fn lemma_event_roundtrip_event_begin_combat(e: EventModel, m: EventBeginCombat)
    requires
        e.body == EventBodyModel::BeginCombat(m),
    ensures
        spec_parse_one(spec_dump_event(e)) == Ok::<EventModel, Error>(e),
{
    let empty = Seq::<char>::empty();
    let s1 = EventTag::BeginCombat.spec_name();
    EventTag::BeginCombat.lemma_parse_roundtrip(empty);
    assert(s1 + empty =~= s1);
    let s0 = spec_dump_uint(e.timestamp as nat) + (seq![','] + s1);
    lemma_comma_chop(s1);
    lemma_parse_uint_roundtrip(e.timestamp as nat, u64::MAX as nat, seq![','] + s1);
    assert(spec_dump_event(e) == s0);
    assert(spec_parse_one(spec_dump_event(e)) == Ok::<EventModel, Error>(e));
}

/// Round trip of a `BeginLog` line.
#[verifier::rlimit(100)]
#[verifier::spinoff_prover]
proof fn lemma_event_roundtrip_event_begin_log(e: EventModel, m: EventBeginLogModel)
    requires
        e.body == EventBodyModel::BeginLog(m),
        event_begin_log_wf(m),
    ensures
        spec_parse_one(spec_dump_event(e)) == Ok::<EventModel, Error>(e),
{
    let empty = Seq::<char>::empty();
    let body = spec_dump_event_begin_log(m);
    lemma_parse_event_begin_log_roundtrip(m);
    let s1 = EventTag::BeginLog.spec_name() + (seq![','] + body);
    lemma_comma_chop(body);
    EventTag::BeginLog.lemma_parse_roundtrip(seq![','] + body);
    let s0 = spec_dump_uint(e.timestamp as nat) + (seq![','] + s1);
    lemma_comma_chop(s1);
    lemma_parse_uint_roundtrip(e.timestamp as nat, u64::MAX as nat, seq![','] + s1);
    assert(spec_parse_event_begin_log(body + empty) == spec_parse_event_begin_log(body)) by {
        assert(body + empty =~= body);
    }
    assert(spec_dump_event(e) == s0);
    assert(spec_parse_one(spec_dump_event(e)) == Ok::<EventModel, Error>(e));
}

/// Round trip of a `BeginTrial` line.
#[verifier::rlimit(100)]
#[verifier::spinoff_prover]
proof fn lemma_event_roundtrip_event_begin_trial(e: EventModel, m: EventBeginTrial)
    requires
        e.body == EventBodyModel::BeginTrial(m),
        event_begin_trial_wf(m),
    ensures
        spec_parse_one(spec_dump_event(e)) == Ok::<EventModel, Error>(e),
{
    let empty = Seq::<char>::empty();
    let body = spec_dump_event_begin_trial(m);
    lemma_parse_event_begin_trial_roundtrip(m);
    let s1 = EventTag::BeginTrial.spec_name() + (seq![','] + body);
    lemma_comma_chop(body);
    EventTag::BeginTrial.lemma_parse_roundtrip(seq![','] + body);
    let s0 = spec_dump_uint(e.timestamp as nat) + (seq![','] + s1);
    lemma_comma_chop(s1);
    lemma_parse_uint_roundtrip(e.timestamp as nat, u64::MAX as nat, seq![','] + s1);
    assert(spec_parse_event_begin_trial(body + empty) == spec_parse_event_begin_trial(body)) by {
        assert(body + empty =~= body);
    }
    assert(spec_dump_event(e) == s0);
    assert(spec_parse_one(spec_dump_event(e)) == Ok::<EventModel, Error>(e));
}

/// Round trip of a `CombatEvent` line.
#[verifier::rlimit(100)]
#[verifier::spinoff_prover]
proof fn lemma_event_roundtrip_event_combat_event(e: EventModel, m: EventCombatEvent)
    requires
        e.body == EventBodyModel::CombatEvent(m),
        event_combat_event_wf(m),
    ensures
        spec_parse_one(spec_dump_event(e)) == Ok::<EventModel, Error>(e),
{
    let empty = Seq::<char>::empty();
    let body = spec_dump_event_combat_event(m);
    lemma_parse_event_combat_event_roundtrip(m);
    let s1 = EventTag::CombatEvent.spec_name() + (seq![','] + body);
    lemma_comma_chop(body);
    EventTag::CombatEvent.lemma_parse_roundtrip(seq![','] + body);
    let s0 = spec_dump_uint(e.timestamp as nat) + (seq![','] + s1);
    lemma_comma_chop(s1);
    lemma_parse_uint_roundtrip(e.timestamp as nat, u64::MAX as nat, seq![','] + s1);
    assert(spec_parse_event_combat_event(body + empty) == spec_parse_event_combat_event(body)) by {
        assert(body + empty =~= body);
    }
    assert(spec_dump_event(e) == s0);
    assert(spec_parse_one(spec_dump_event(e)) == Ok::<EventModel, Error>(e));
}

/// Round trip of a `EffectChanged` line.
#[verifier::rlimit(100)]
#[verifier::spinoff_prover]
proof fn lemma_event_roundtrip_event_effect_changed(e: EventModel, m: EventEffectChanged)
    requires
        e.body == EventBodyModel::EffectChanged(m),
        event_effect_changed_wf(m),
    ensures
        spec_parse_one(spec_dump_event(e)) == Ok::<EventModel, Error>(e),
{
    let empty = Seq::<char>::empty();
    let body = spec_dump_event_effect_changed(m);
    lemma_parse_event_effect_changed_roundtrip(m);
    let s1 = EventTag::EffectChanged.spec_name() + (seq![','] + body);
    lemma_comma_chop(body);
    EventTag::EffectChanged.lemma_parse_roundtrip(seq![','] + body);
    let s0 = spec_dump_uint(e.timestamp as nat) + (seq![','] + s1);
    lemma_comma_chop(s1);
    lemma_parse_uint_roundtrip(e.timestamp as nat, u64::MAX as nat, seq![','] + s1);
    assert(spec_parse_event_effect_changed(body + empty) == spec_parse_event_effect_changed(body)) by {
        assert(body + empty =~= body);
    }
    assert(spec_dump_event(e) == s0);
    assert(spec_parse_one(spec_dump_event(e)) == Ok::<EventModel, Error>(e));
}

/// Round trip of a `EffectInfo` line.
#[verifier::rlimit(100)]
#[verifier::spinoff_prover]
proof fn lemma_event_roundtrip_event_effect_info(e: EventModel, m: EventEffectInfo)
    requires
        e.body == EventBodyModel::EffectInfo(m),
        event_effect_info_wf(m),
    ensures
        spec_parse_one(spec_dump_event(e)) == Ok::<EventModel, Error>(e),
{
    let empty = Seq::<char>::empty();
    let body = spec_dump_event_effect_info(m);
    lemma_parse_event_effect_info_roundtrip(m);
    let s1 = EventTag::EffectInfo.spec_name() + (seq![','] + body);
    lemma_comma_chop(body);
    EventTag::EffectInfo.lemma_parse_roundtrip(seq![','] + body);
    let s0 = spec_dump_uint(e.timestamp as nat) + (seq![','] + s1);
    lemma_comma_chop(s1);
    lemma_parse_uint_roundtrip(e.timestamp as nat, u64::MAX as nat, seq![','] + s1);
    assert(spec_parse_event_effect_info(body + empty) == spec_parse_event_effect_info(body)) by {
        assert(body + empty =~= body);
    }
    assert(spec_dump_event(e) == s0);
    assert(spec_parse_one(spec_dump_event(e)) == Ok::<EventModel, Error>(e));
}

/// Round trip of a `EndCast` line.
#[verifier::rlimit(100)]
#[verifier::spinoff_prover]
proof fn lemma_event_roundtrip_event_end_cast(e: EventModel, m: EventEndCast)
    requires
        e.body == EventBodyModel::EndCast(m),
        event_end_cast_wf(m),
    ensures
        spec_parse_one(spec_dump_event(e)) == Ok::<EventModel, Error>(e),
{
    let empty = Seq::<char>::empty();
    let body = spec_dump_event_end_cast(m);
    lemma_parse_event_end_cast_roundtrip(m);
    let s1 = EventTag::EndCast.spec_name() + (seq![','] + body);
    lemma_comma_chop(body);
    EventTag::EndCast.lemma_parse_roundtrip(seq![','] + body);
    let s0 = spec_dump_uint(e.timestamp as nat) + (seq![','] + s1);
    lemma_comma_chop(s1);
    lemma_parse_uint_roundtrip(e.timestamp as nat, u64::MAX as nat, seq![','] + s1);
    assert(spec_parse_event_end_cast(body + empty) == spec_parse_event_end_cast(body)) by {
        assert(body + empty =~= body);
    }
    assert(spec_dump_event(e) == s0);
    assert(spec_parse_one(spec_dump_event(e)) == Ok::<EventModel, Error>(e));
}

/// Round trip of a `EndCombat` line.
#[verifier::rlimit(100)]
#[verifier::spinoff_prover]
proof fn lemma_event_roundtrip_event_end_combat(e: EventModel, m: EventEndCombat)
    requires
        e.body == EventBodyModel::EndCombat(m),
    ensures
        spec_parse_one(spec_dump_event(e)) == Ok::<EventModel, Error>(e),
{
    let empty = Seq::<char>::empty();
    let s1 = EventTag::EndCombat.spec_name();
    EventTag::EndCombat.lemma_parse_roundtrip(empty);
    assert(s1 + empty =~= s1);
    let s0 = spec_dump_uint(e.timestamp as nat) + (seq![','] + s1);
    lemma_comma_chop(s1);
    lemma_parse_uint_roundtrip(e.timestamp as nat, u64::MAX as nat, seq![','] + s1);
    assert(spec_dump_event(e) == s0);
    assert(spec_parse_one(spec_dump_event(e)) == Ok::<EventModel, Error>(e));
}

/// Round trip of a `EndLog` line.
#[verifier::rlimit(100)]
#[verifier::spinoff_prover]
proof fn lemma_event_roundtrip_event_end_log(e: EventModel, m: EventEndLog)
    requires
        e.body == EventBodyModel::EndLog(m),
    ensures
        spec_parse_one(spec_dump_event(e)) == Ok::<EventModel, Error>(e),
{
    let empty = Seq::<char>::empty();
    let s1 = EventTag::EndLog.spec_name();
    EventTag::EndLog.lemma_parse_roundtrip(empty);
    assert(s1 + empty =~= s1);
    let s0 = spec_dump_uint(e.timestamp as nat) + (seq![','] + s1);
    lemma_comma_chop(s1);
    lemma_parse_uint_roundtrip(e.timestamp as nat, u64::MAX as nat, seq![','] + s1);
    assert(spec_dump_event(e) == s0);
    assert(spec_parse_one(spec_dump_event(e)) == Ok::<EventModel, Error>(e));
}

/// Round trip of a `EndTrial` line.
#[verifier::rlimit(100)]
#[verifier::spinoff_prover]
proof fn lemma_event_roundtrip_event_end_trial(e: EventModel, m: EventEndTrial)
    requires
        e.body == EventBodyModel::EndTrial(m),
        event_end_trial_wf(m),
    ensures
        spec_parse_one(spec_dump_event(e)) == Ok::<EventModel, Error>(e),
{
    let empty = Seq::<char>::empty();
    let body = spec_dump_event_end_trial(m);
    lemma_parse_event_end_trial_roundtrip(m);
    let s1 = EventTag::EndTrial.spec_name() + (seq![','] + body);
    lemma_comma_chop(body);
    EventTag::EndTrial.lemma_parse_roundtrip(seq![','] + body);
    let s0 = spec_dump_uint(e.timestamp as nat) + (seq![','] + s1);
    lemma_comma_chop(s1);
    lemma_parse_uint_roundtrip(e.timestamp as nat, u64::MAX as nat, seq![','] + s1);
    assert(spec_parse_event_end_trial(body + empty) == spec_parse_event_end_trial(body)) by {
        assert(body + empty =~= body);
    }
    assert(spec_dump_event(e) == s0);
    assert(spec_parse_one(spec_dump_event(e)) == Ok::<EventModel, Error>(e));
}

/// Round trip of a `HealthRegen` line.
#[verifier::rlimit(100)]
#[verifier::spinoff_prover]
proof fn lemma_event_roundtrip_event_health_regen(e: EventModel, m: EventHealthRegen)
    requires
        e.body == EventBodyModel::HealthRegen(m),
        event_health_regen_wf(m),
    ensures
        spec_parse_one(spec_dump_event(e)) == Ok::<EventModel, Error>(e),
{
    let empty = Seq::<char>::empty();
    let body = spec_dump_event_health_regen(m);
    lemma_parse_event_health_regen_roundtrip(m);
    let s1 = EventTag::HealthRegen.spec_name() + (seq![','] + body);
    lemma_comma_chop(body);
    EventTag::HealthRegen.lemma_parse_roundtrip(seq![','] + body);
    let s0 = spec_dump_uint(e.timestamp as nat) + (seq![','] + s1);
    lemma_comma_chop(s1);
    lemma_parse_uint_roundtrip(e.timestamp as nat, u64::MAX as nat, seq![','] + s1);
    assert(spec_parse_event_health_regen(body + empty) == spec_parse_event_health_regen(body)) by {
        assert(body + empty =~= body);
    }
    assert(spec_dump_event(e) == s0);
    assert(spec_parse_one(spec_dump_event(e)) == Ok::<EventModel, Error>(e));
}

/// Round trip of a `MapChanged` line.
#[verifier::rlimit(100)]
#[verifier::spinoff_prover]
proof fn lemma_event_roundtrip_event_map_info(e: EventModel, m: EventMapInfoModel)
    requires
        e.body == EventBodyModel::MapChanged(m),
        event_map_info_wf(m),
    ensures
        spec_parse_one(spec_dump_event(e)) == Ok::<EventModel, Error>(e),
{
    let empty = Seq::<char>::empty();
    let body = spec_dump_event_map_info(m);
    lemma_parse_event_map_info_roundtrip(m);
    let s1 = EventTag::MapChanged.spec_name() + (seq![','] + body);
    lemma_comma_chop(body);
    EventTag::MapChanged.lemma_parse_roundtrip(seq![','] + body);
    let s0 = spec_dump_uint(e.timestamp as nat) + (seq![','] + s1);
    lemma_comma_chop(s1);
    lemma_parse_uint_roundtrip(e.timestamp as nat, u64::MAX as nat, seq![','] + s1);
    assert(spec_parse_event_map_info(body + empty) == spec_parse_event_map_info(body)) by {
        assert(body + empty =~= body);
    }
    assert(spec_dump_event(e) == s0);
    assert(spec_parse_one(spec_dump_event(e)) == Ok::<EventModel, Error>(e));
}

/// Round trip of a `PlayerInfo` line.
#[verifier::rlimit(100)]
#[verifier::spinoff_prover]
proof fn lemma_event_roundtrip_event_player_info(e: EventModel, m: EventPlayerInfoModel)
    requires
        e.body == EventBodyModel::PlayerInfo(m),
        event_player_info_wf(m),
    ensures
        spec_parse_one(spec_dump_event(e)) == Ok::<EventModel, Error>(e),
{
    let empty = Seq::<char>::empty();
    let body = spec_dump_event_player_info(m);
    lemma_parse_event_player_info_roundtrip(m);
    let s1 = EventTag::PlayerInfo.spec_name() + (seq![','] + body);
    lemma_comma_chop(body);
    EventTag::PlayerInfo.lemma_parse_roundtrip(seq![','] + body);
    let s0 = spec_dump_uint(e.timestamp as nat) + (seq![','] + s1);
    lemma_comma_chop(s1);
    lemma_parse_uint_roundtrip(e.timestamp as nat, u64::MAX as nat, seq![','] + s1);
    assert(spec_parse_event_player_info(body + empty) == spec_parse_event_player_info(body)) by {
        assert(body + empty =~= body);
    }
    assert(spec_dump_event(e) == s0);
    assert(spec_parse_one(spec_dump_event(e)) == Ok::<EventModel, Error>(e));
}

/// Round trip of a `TrialInit` line.
#[verifier::rlimit(100)]
#[verifier::spinoff_prover]
proof fn lemma_event_roundtrip_event_trial_init(e: EventModel, m: EventTrialInit)
    requires
        e.body == EventBodyModel::TrialInit(m),
        event_trial_init_wf(m),
    ensures
        spec_parse_one(spec_dump_event(e)) == Ok::<EventModel, Error>(e),
{
    let empty = Seq::<char>::empty();
    let body = spec_dump_event_trial_init(m);
    lemma_parse_event_trial_init_roundtrip(m);
    let s1 = EventTag::TrialInit.spec_name() + (seq![','] + body);
    lemma_comma_chop(body);
    EventTag::TrialInit.lemma_parse_roundtrip(seq![','] + body);
    let s0 = spec_dump_uint(e.timestamp as nat) + (seq![','] + s1);
    lemma_comma_chop(s1);
    lemma_parse_uint_roundtrip(e.timestamp as nat, u64::MAX as nat, seq![','] + s1);
    assert(spec_parse_event_trial_init(body + empty) == spec_parse_event_trial_init(body)) by {
        assert(body + empty =~= body);
    }
    assert(spec_dump_event(e) == s0);
    assert(spec_parse_one(spec_dump_event(e)) == Ok::<EventModel, Error>(e));
}

/// Round trip of a `UnitAdded` line.
#[verifier::rlimit(100)]
#[verifier::spinoff_prover]
proof fn lemma_event_roundtrip_event_unit_added(e: EventModel, m: EventUnitAddedModel)
    requires
        e.body == EventBodyModel::UnitAdded(m),
        event_unit_added_wf(m),
    ensures
        spec_parse_one(spec_dump_event(e)) == Ok::<EventModel, Error>(e),
{
    let empty = Seq::<char>::empty();
    let body = spec_dump_event_unit_added(m);
    lemma_parse_event_unit_added_roundtrip(m);
    let s1 = EventTag::UnitAdded.spec_name() + (seq![','] + body);
    lemma_comma_chop(body);
    EventTag::UnitAdded.lemma_parse_roundtrip(seq![','] + body);
    let s0 = spec_dump_uint(e.timestamp as nat) + (seq![','] + s1);
    lemma_comma_chop(s1);
    lemma_parse_uint_roundtrip(e.timestamp as nat, u64::MAX as nat, seq![','] + s1);
    assert(spec_parse_event_unit_added(body + empty) == spec_parse_event_unit_added(body)) by {
        assert(body + empty =~= body);
    }
    assert(spec_dump_event(e) == s0);
    assert(spec_parse_one(spec_dump_event(e)) == Ok::<EventModel, Error>(e));
}

/// Round trip of a `UnitChanged` line.
#[verifier::rlimit(100)]
#[verifier::spinoff_prover]
proof fn lemma_event_roundtrip_event_unit_changed(e: EventModel, m: EventUnitChangedModel)
    requires
        e.body == EventBodyModel::UnitChanged(m),
        event_unit_changed_wf(m),
    ensures
        spec_parse_one(spec_dump_event(e)) == Ok::<EventModel, Error>(e),
{
    let empty = Seq::<char>::empty();
    let body = spec_dump_event_unit_changed(m);
    lemma_parse_event_unit_changed_roundtrip(m);
    let s1 = EventTag::UnitChanged.spec_name() + (seq![','] + body);
    lemma_comma_chop(body);
    EventTag::UnitChanged.lemma_parse_roundtrip(seq![','] + body);
    let s0 = spec_dump_uint(e.timestamp as nat) + (seq![','] + s1);
    lemma_comma_chop(s1);
    lemma_parse_uint_roundtrip(e.timestamp as nat, u64::MAX as nat, seq![','] + s1);
    assert(spec_parse_event_unit_changed(body + empty) == spec_parse_event_unit_changed(body)) by {
        assert(body + empty =~= body);
    }
    assert(spec_dump_event(e) == s0);
    assert(spec_parse_one(spec_dump_event(e)) == Ok::<EventModel, Error>(e));
}

/// Round trip of a `UnitRemoved` line.
#[verifier::rlimit(100)]
#[verifier::spinoff_prover]
proof fn lemma_event_roundtrip_event_unit_removed(e: EventModel, m: EventUnitRemoved)
    requires
        e.body == EventBodyModel::UnitRemoved(m),
        event_unit_removed_wf(m),
    ensures
        spec_parse_one(spec_dump_event(e)) == Ok::<EventModel, Error>(e),
{
    let empty = Seq::<char>::empty();
    let body = spec_dump_event_unit_removed(m);
    lemma_parse_event_unit_removed_roundtrip(m);
    let s1 = EventTag::UnitRemoved.spec_name() + (seq![','] + body);
    lemma_comma_chop(body);
    EventTag::UnitRemoved.lemma_parse_roundtrip(seq![','] + body);
    let s0 = spec_dump_uint(e.timestamp as nat) + (seq![','] + s1);
    lemma_comma_chop(s1);
    lemma_parse_uint_roundtrip(e.timestamp as nat, u64::MAX as nat, seq![','] + s1);
    assert(spec_parse_event_unit_removed(body + empty) == spec_parse_event_unit_removed(body)) by {
        assert(body + empty =~= body);
    }
    assert(spec_dump_event(e) == s0);
    assert(spec_parse_one(spec_dump_event(e)) == Ok::<EventModel, Error>(e));
}

/// Round trip of a `ZoneChanged` line.
#[verifier::rlimit(100)]
#[verifier::spinoff_prover]
proof fn lemma_event_roundtrip_event_zone_info(e: EventModel, m: EventZoneInfoModel)
    requires
        e.body == EventBodyModel::ZoneChanged(m),
        event_zone_info_wf(m),
    ensures
        spec_parse_one(spec_dump_event(e)) == Ok::<EventModel, Error>(e),
{
    let empty = Seq::<char>::empty();
    let body = spec_dump_event_zone_info(m);
    lemma_parse_event_zone_info_roundtrip(m);
    let s1 = EventTag::ZoneChanged.spec_name() + (seq![','] + body);
    lemma_comma_chop(body);
    EventTag::ZoneChanged.lemma_parse_roundtrip(seq![','] + body);
    let s0 = spec_dump_uint(e.timestamp as nat) + (seq![','] + s1);
    lemma_comma_chop(s1);
    lemma_parse_uint_roundtrip(e.timestamp as nat, u64::MAX as nat, seq![','] + s1);
    assert(spec_parse_event_zone_info(body + empty) == spec_parse_event_zone_info(body)) by {
        assert(body + empty =~= body);
    }
    assert(spec_dump_event(e) == s0);
    assert(spec_parse_one(spec_dump_event(e)) == Ok::<EventModel, Error>(e));
}

/// Round trip: parsing a dumped event yields the event.
pub proof fn lemma_event_roundtrip(e: EventModel)
    requires
        event_wf(e),
    ensures
        spec_parse_one(spec_dump_event(e)) == Ok::<EventModel, Error>(e),
{
    match e.body {
        EventBodyModel::AbilityInfo(m) => lemma_event_roundtrip_event_ability_info(e, m),
        EventBodyModel::BeginCast(m) => lemma_event_roundtrip_event_begin_cast(e, m),
        EventBodyModel::BeginCombat(m) => lemma_event_roundtrip_event_begin_combat(e, m),
        EventBodyModel::BeginLog(m) => lemma_event_roundtrip_event_begin_log(e, m),
        EventBodyModel::BeginTrial(m) => lemma_event_roundtrip_event_begin_trial(e, m),
        EventBodyModel::CombatEvent(m) => lemma_event_roundtrip_event_combat_event(e, m),
        EventBodyModel::EffectChanged(m) => lemma_event_roundtrip_event_effect_changed(e, m),
        EventBodyModel::EffectInfo(m) => lemma_event_roundtrip_event_effect_info(e, m),
        EventBodyModel::EndCast(m) => lemma_event_roundtrip_event_end_cast(e, m),
        EventBodyModel::EndCombat(m) => lemma_event_roundtrip_event_end_combat(e, m),
        EventBodyModel::EndLog(m) => lemma_event_roundtrip_event_end_log(e, m),
        EventBodyModel::EndTrial(m) => lemma_event_roundtrip_event_end_trial(e, m),
        EventBodyModel::HealthRegen(m) => lemma_event_roundtrip_event_health_regen(e, m),
        EventBodyModel::MapChanged(m) => lemma_event_roundtrip_event_map_info(e, m),
        EventBodyModel::PlayerInfo(m) => lemma_event_roundtrip_event_player_info(e, m),
        EventBodyModel::TrialInit(m) => lemma_event_roundtrip_event_trial_init(e, m),
        EventBodyModel::UnitAdded(m) => lemma_event_roundtrip_event_unit_added(e, m),
        EventBodyModel::UnitChanged(m) => lemma_event_roundtrip_event_unit_changed(e, m),
        EventBodyModel::UnitRemoved(m) => lemma_event_roundtrip_event_unit_removed(e, m),
        EventBodyModel::ZoneChanged(m) => lemma_event_roundtrip_event_zone_info(e, m),
    }
}

} // verus!
