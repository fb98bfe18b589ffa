use eso_lib::action_result::ActionResult;
use eso_lib::enums::{DamageType, EquipSlot, UnitReactionType, UnitType};
use eso_lib::reader::EsoLogReader;
use eso_lib::error::Error;
use eso_lib::events::{Event, EventType};
use eso_lib::ids::{AbilityId, EsoDuration, TrackId, UnitId};

fn roundtrip(line: &str) -> Event {
    let ev = Event::parse(line).expect(line);
    let back = ev.dump().unwrap();
    assert_eq!(back, line);
    ev
}

#[test]
fn begin_log_line_parses_and_roundtrips() {
    let ev = roundtrip("3,BEGIN_LOG,1700000000000,\"15\",\"NA Megaserver\",\"en\",\"10.2.5\"");
    assert_eq!(ev.timestamp(), &EsoDuration(3));
    let b = ev.event().begin_log().unwrap();
    assert_eq!(b.time().0, 1700000000000);
    assert_eq!(b.log_version(), "\"15\"");
    assert_eq!(b.realm_name(), "\"NA Megaserver\"");
    assert_eq!(b.language(), "\"en\"");
    assert_eq!(b.game_version(), "\"10.2.5\"");
}

#[test]
fn unit_added_line_parses_and_roundtrips() {
    let ev = roundtrip(
        "42,UNIT_ADDED,7,PLAYER,T,1,0,F,117,6,\"Tester\",\"@tester\",0,50,3600,0,PLAYER_ALLY,T",
    );
    let u = ev.event().unit_added().unwrap();
    assert_eq!(u.unit_id(), &UnitId(7));
    assert_eq!(u.unit_type(), &UnitType::Player);
    assert_eq!(u.is_boss(), &false);
    assert_eq!(u.name(), "\"Tester\"");
    assert_eq!(u.level(), &50);
    assert_eq!(u.champion_points(), &3600);
    assert_eq!(u.reaction(), &UnitReactionType::PlayerAlly);
}

#[test]
fn combat_event_line_parses_star_target() {
    let line = "100,COMBAT_EVENT,DAMAGE,PHYSICAL,0,1500,0,99,38788,7,10000/20000,15000/15000,10000/10000,500/500,0,0,1.0,2.0,0.0,*";
    let ev = Event::parse(line).unwrap();
    // the lone `0` pool re-emits in the canonical `current/max` spelling
    assert_eq!(
        ev.dump().unwrap(),
        "100,COMBAT_EVENT,DAMAGE,PHYSICAL,0,1500,0,99,38788,7,10000/20000,15000/15000,10000/10000,500/500,0/0,0,1.0,2.0,0.0,*"
    );
    let c = ev.event().combat_event().unwrap();
    assert_eq!(c.damage_type(), &DamageType::Physical);
    assert_eq!(c.hit_value(), &1500);
    assert_eq!(c.source_unit().unit_id, UnitId(7));
    // the `*` target falls back to the source
    let tgt = c.target_unit().get(c.source_unit());
    assert_eq!(tgt.unit_id, UnitId(7));
    assert_eq!(tgt.health.current, 10000);
    assert_eq!(tgt.health.max, 20000);
    // the lone `0` werewolf token reads as an empty pool
    assert_eq!(c.source_unit().werewolf.current, 0);
    assert_eq!(c.source_unit().werewolf.max, 0);
}

#[test]
fn end_cast_trailing_optionals_roundtrip() {
    let ev = roundtrip("7,END_CAST,COMPLETED,2927");
    let e = ev.event().end_cast().unwrap();
    assert!(e.interrupting_ability_id().is_none());
    assert!(e.interrupting_unit_id().is_none());

    let ev = roundtrip("7,END_CAST,INTERRUPTED,2927,21970,5");
    let e = ev.event().end_cast().unwrap();
    assert_eq!(e.interrupting_ability_id(), Some(&AbilityId(21970)));
    assert_eq!(e.interrupting_unit_id(), Some(&UnitId(5)));

    roundtrip("7,END_CAST,COMPLETED,2927,21970,5,8");
}

#[test]
fn player_info_lists_roundtrip() {
    let line = "33,PLAYER_INFO,1,[142079,142080],[1,2],[[HEAD,94779,T,16,ARMOR_DIVINES,LEGENDARY,443,INVALID,F,0,NORMAL],[CHEST,94780,T,16,ARMOR_DIVINES,LEGENDARY,443,INVALID,F,0,NORMAL]],[40382,45022],[35419,34843]";
    let ev = roundtrip(line);
    let p = ev.event().player_info().unwrap();
    assert_eq!(p.unit_id(), &UnitId(1));
    assert_eq!(p.long_term_effects().len(), 2);
    assert_eq!(p.long_term_effects()[0].ability(), &AbilityId(142079));
    assert_eq!(p.long_term_effects()[1].stack_count().0, 2);
    assert_eq!(p.equipment_info().len(), 2);
    assert_eq!(p.equipment_info()[0].slot(), &EquipSlot::Head);
    assert_eq!(p.primary_abilities().len(), 2);
    assert_eq!(p.backup_abilities()[1], AbilityId(34843));
}

#[test]
fn player_info_zip_takes_common_prefix() {
    // three ability ids but only two stack counts: the tail is dropped
    let line = "33,PLAYER_INFO,1,[10,11,12],[1,2],[],[],[]";
    let ev = Event::parse(line).unwrap();
    let p = ev.event().player_info().unwrap();
    assert_eq!(p.long_term_effects().len(), 2);
    assert_eq!(p.long_term_effects()[1].ability(), &AbilityId(11));
}

#[test]
fn map_and_zone_aliases_are_accepted_and_canonicalized() {
    let ev = Event::parse("5,MAP_INFO,40,\"Gron'kaal\",\"ui_map/gronkaal.dds\"").unwrap();
    assert!(ev.event().map_info().is_some());
    assert_eq!(
        ev.dump().unwrap(),
        "5,MAP_CHANGED,40,\"Gron'kaal\",\"ui_map/gronkaal.dds\""
    );
    let ev = Event::parse("5,ZONE_INFO,981,\"Fang Lair\",VETERAN").unwrap();
    assert!(ev.event().zone_info().is_some());
    assert_eq!(ev.dump().unwrap(), "5,ZONE_CHANGED,981,\"Fang Lair\",VETERAN");
}

#[test]
fn unit_events_roundtrip() {
    roundtrip("10,BEGIN_COMBAT");
    roundtrip("30,END_COMBAT");
    roundtrip("99,END_LOG");
    roundtrip("12,BEGIN_TRIAL,1,1700000000000");
    roundtrip("13,END_TRIAL,1,5000,T,113000,3");
    roundtrip("14,TRIAL_INIT,1,T,F,0,0,F,0");
    roundtrip("15,ABILITY_INFO,38788,\"Crystal Weapon\",\"ability_sorcerer.dds\",T,T");
    roundtrip("16,EFFECT_INFO,38788,BUFF,NONE,DEFAULT");
    roundtrip("17,EFFECT_INFO,38788,DEBUFF,MAGIC,NEVER,12345");
    roundtrip("18,HEALTH_REGEN,509,4,0/0,0/0,0/0,0/0,0/0,0,0.0,0.0,0.0");
    roundtrip("19,BEGIN_CAST,0,F,2927,38788,7,1/1,2/2,3/3,4/4,5/5,6,-1.5,0.25,3.0,*");
}

#[test]
fn decimal_spellings_are_kept_exactly() {
    let line = "20,BEGIN_CAST,0,F,1,2,7,1/1,2/2,3/3,4/4,5/5,6,509.9681,185.8353,4.4129,*";
    roundtrip(line);
    let line = "20,BEGIN_CAST,0,F,1,2,7,1/1,2/2,3/3,4/4,5/5,6,-0.05,10.500,0,*";
    roundtrip(line);
}

#[test]
fn parse_errors_are_reported_per_kind() {
    // a boolean that is not T or F
    assert_eq!(
        Event::parse("15,ABILITY_INFO,38788,\"A\",\"b\",X,T").unwrap_err(),
        Error::InvalidToken
    );
    // an identifier outside the closed set
    assert_eq!(Event::parse("1,NO_SUCH_EVENT").unwrap_err(), Error::InvalidToken);
    // a missing field
    assert_eq!(Event::parse("15,ABILITY_INFO,38788,\"A\"").unwrap_err(), Error::UnexpectedEnd);
    // a malformed integer
    assert_eq!(Event::parse("1x,BEGIN_COMBAT").unwrap_err(), Error::ParseIntError);
    // a malformed decimal
    assert_eq!(
        Event::parse("20,BEGIN_CAST,0,F,1,2,7,1/1,2/2,3/3,4/4,5/5,6,x.5,0.0,0.0,*").unwrap_err(),
        Error::ParseFloatError
    );
    // a list-shaped field whose token is no list
    assert_eq!(Event::parse("33,PLAYER_INFO,1,17,[],[],[],[]").unwrap_err(), Error::NotAList);
    // leftover tokens after a complete event
    assert_eq!(Event::parse("10,BEGIN_COMBAT,junk").unwrap_err(), Error::ReaderNotExhausted);
}

#[test]
fn is_critical_distinguishes_critical_outcomes() {
    assert!(ActionResult::CriticalDamage.is_critical());
    assert!(ActionResult::HotTickCritical.is_critical());
    assert!(!ActionResult::Damage.is_critical());
    assert_eq!(ActionResult::from_token("CRITICAL_DAMAGE"), Some(ActionResult::CriticalDamage));
    assert_eq!(ActionResult::from_token("NOT_A_RESULT"), None);
    assert_eq!(ActionResult::KillingBlow.name(), "KILLING_BLOW");
}

#[test]
fn parse_many_splits_lines_and_reports_each() {
    let text = "10,BEGIN_COMBAT\r\n1x,BEGIN_COMBAT\n30,END_COMBAT";
    let rs = Event::parse_many(text);
    assert_eq!(rs.len(), 3);
    assert!(rs[0].is_ok());
    assert!(matches!(rs[1], Err(Error::ParseIntError)));
    assert!(rs[2].is_ok());
}

#[test]
fn parallel_parse_matches_sequential() {
    let text = "10,BEGIN_COMBAT\n42,UNIT_ADDED,7,PLAYER,T,1,0,F,117,6,\"T\",\"@t\",0,50,3600,0,PLAYER_ALLY,T\nbad line\n30,END_COMBAT";
    let seq = Event::parse_many(text);
    let par = Event::parse_many_par(text);
    assert_eq!(seq.len(), par.len());
    for (a, b) in seq.iter().zip(par.iter()) {
        match (a, b) {
            (Ok(x), Ok(y)) => assert_eq!(x.dump().unwrap(), y.dump().unwrap()),
            (Err(x), Err(y)) => assert_eq!(x, y),
            _ => panic!("sequential and parallel parses disagree"),
        }
    }
    let s = String::from(text);
    assert_eq!(Event::parse_many_string(&s).len(), 4);
    assert_eq!(Event::parse_many_string_par(&s).len(), 4);
}

#[test]
fn serializer_strips_the_trailing_comma() {
    let mut s = eso_lib::serde_api::Serializer::new();
    s.push_str("12");
    s.push_str("BEGIN_COMBAT");
    assert_eq!(s.as_str(), "12,BEGIN_COMBAT");
    assert_eq!(s.into_string(), "12,BEGIN_COMBAT");
}

#[test]
fn deserializer_reads_one_event() {
    let d = eso_lib::serde_api::Deserializer::new("10,BEGIN_COMBAT");
    let ev = d.event().unwrap();
    assert!(matches!(ev.event(), EventType::BeginCombat(_)));
}

#[test]
fn reader_yields_tokens_by_shape() {
    let mut r = EsoLogReader::read_line("ab,\"c,d\",[1,[2]],e");
    assert_eq!(r.next(), Some("ab"));
    assert_eq!(r.next(), Some("\"c,d\""));
    assert_eq!(r.next(), Some("[1,[2]]"));
    assert_eq!(r.next(), Some("e"));
    assert_eq!(r.next(), None);
    let mut s = EsoLogReader::new_split("100/200", '/');
    assert_eq!(s.next(), Some("100"));
    assert_eq!(s.inner(), "200");
}

#[test]
fn track_ids_compare_by_value() {
    assert_eq!(TrackId(99), TrackId(99));
    assert_ne!(TrackId(99), TrackId(101));
}
