use eso_lib::enums::UnitType;
use eso_lib::event_iterator::EventIterator;
use eso_lib::events::Event;
use eso_lib::ids::{TrackId, UnitId};
use eso_lib::state::State;

fn ev(line: &str) -> Event {
    Event::parse(line).expect(line)
}

const SRC7: &str = "7,0/0,0/0,0/0,0/0,0/0,0,0.0,0.0,0.0";
const TGT3: &str = "3,0/0,0/0,0/0,0/0,0/0,0,0.0,0.0,0.0";

fn add_player7() -> Event {
    ev("42,UNIT_ADDED,7,PLAYER,T,1,0,F,117,6,\"Tester\",\"@tester\",0,50,3600,0,PLAYER_ALLY,T")
}

fn add_monster3() -> Event {
    ev("43,UNIT_ADDED,3,MONSTER,F,0,555,F,0,0,\"Rat\",\"\",0,1,0,0,HOSTILE,F")
}

#[test]
fn unit_added_is_projected() {
    let mut st = State::new();
    st.handle_event(&add_player7());
    let u = st.entities().get(&7).unwrap();
    assert_eq!(u.unit_type(), &UnitType::Player);
    assert_eq!(u.is_boss(), &false);
    assert_eq!(u.name(), "\"Tester\"");
}

#[test]
fn new_state_holds_the_world_unit() {
    let st = State::new();
    assert_eq!(st.entities().len(), 1);
    assert_eq!(st.entities().get(&0).unwrap().name(), "World");
    assert_eq!(st.in_combat(), &false);
}

#[test]
fn combat_event_updates_only_the_mentioned_units() {
    let mut st = State::new();
    st.handle_event(&add_player7());
    let line = format!(
        "100,COMBAT_EVENT,DAMAGE,PHYSICAL,0,1500,0,99,38788,7,10000/20000,15000/15000,10000/10000,500/500,0,0,1.0,2.0,0.0,*"
    );
    st.handle_event(&ev(&line));
    let u = st.entities().get(&7).unwrap();
    assert_eq!(u.state().health.current, 10000);
    assert_eq!(u.state().health.max, 20000);
    // the world unit is untouched
    assert_eq!(st.entities().get(&0).unwrap().state().health.max, 0);
}

#[test]
fn effect_gained_then_faded_leaves_no_trace() {
    let mut st = State::new();
    st.handle_event(&add_player7());
    st.handle_event(&add_monster3());
    let gained = format!("200,EFFECT_CHANGED,GAINED,1,99,38788,{},{}", SRC7, TGT3);
    let faded = format!("300,EFFECT_CHANGED,FADED,1,99,38788,{},{}", SRC7, TGT3);
    st.handle_event(&ev(&gained));
    assert_eq!(st.effects().effects().len(), 1);
    assert!(st.effects().get_by_id(&TrackId(99)).is_some());
    assert!(st
        .effects()
        .get_granted_effects(&UnitId(7))
        .unwrap()
        .contains(&TrackId(99)));
    assert!(st
        .effects()
        .get_received_effects(&UnitId(3))
        .unwrap()
        .contains(&TrackId(99)));
    st.handle_event(&ev(&faded));
    assert_eq!(st.effects().effects().len(), 0);
    assert!(!st
        .effects()
        .get_granted_effects(&UnitId(7))
        .unwrap()
        .contains(&TrackId(99)));
    assert!(!st
        .effects()
        .get_received_effects(&UnitId(3))
        .unwrap()
        .contains(&TrackId(99)));
}

#[test]
fn unit_removed_drops_its_received_effects() {
    let mut st = State::new();
    st.handle_event(&add_player7());
    st.handle_event(&add_monster3());
    st.handle_event(&ev(&format!("200,EFFECT_CHANGED,GAINED,1,99,38788,{},{}", SRC7, TGT3)));
    st.handle_event(&ev(&format!("210,EFFECT_CHANGED,GAINED,1,101,38789,{},{}", SRC7, TGT3)));
    assert_eq!(st.effects().effects().len(), 2);
    st.handle_event(&ev("400,UNIT_REMOVED,3"));
    assert!(st.entities().get(&3).is_none());
    assert!(st.effects().get_received_effects(&UnitId(3)).is_none());
    assert_eq!(st.effects().effects().len(), 0);
    let granted = st.effects().get_granted_effects(&UnitId(7)).unwrap();
    assert!(!granted.contains(&TrackId(99)));
    assert!(!granted.contains(&TrackId(101)));
}

#[test]
fn end_combat_sweeps_monsters() {
    let mut st = State::new();
    st.handle_event(&add_player7());
    st.handle_event(&add_monster3());
    st.handle_event(&ev("10,BEGIN_COMBAT"));
    assert_eq!(st.in_combat(), &true);
    let line = format!(
        "20,COMBAT_EVENT,DAMAGE,PHYSICAL,0,7,0,99,38788,{},{}",
        SRC7, TGT3
    );
    st.handle_event(&ev(&line));
    st.handle_event(&ev("30,END_COMBAT"));
    assert_eq!(st.in_combat(), &false);
    assert!(st.entities().get(&3).is_none());
    assert!(st.entities().get(&7).is_some());
    assert!(st.entities().get(&0).is_some());
}

#[test]
fn begin_log_resets_everything() {
    let mut st = State::new();
    st.handle_event(&add_player7());
    st.handle_event(&add_monster3());
    st.handle_event(&ev("10,BEGIN_COMBAT"));
    st.handle_event(&ev("3,BEGIN_LOG,1700000000000,\"15\",\"NA\",\"en\",\"10.2.5\""));
    assert_eq!(st.entities().len(), 1);
    assert!(st.entities().get(&0).is_some());
    assert_eq!(st.in_combat(), &false);
    assert_eq!(st.effects().effects().len(), 0);
}

#[test]
fn updated_effect_keeps_single_cross_reference() {
    let mut st = State::new();
    st.handle_event(&add_player7());
    st.handle_event(&add_monster3());
    st.handle_event(&ev(&format!("200,EFFECT_CHANGED,GAINED,1,99,38788,{},{}", SRC7, TGT3)));
    st.handle_event(&ev(&format!("250,EFFECT_CHANGED,UPDATED,2,99,38788,{},{}", SRC7, TGT3)));
    assert_eq!(st.effects().effects().len(), 1);
    assert_eq!(
        st.effects()
            .get_granted_effects(&UnitId(7))
            .unwrap()
            .iter()
            .filter(|t| **t == TrackId(99))
            .count(),
        1
    );
    assert_eq!(st.effects().get_by_id(&TrackId(99)).unwrap().stack_count.0, 2);
}

#[test]
fn ability_info_first_write_wins() {
    let mut st = State::new();
    st.handle_event(&ev("15,ABILITY_INFO,38788,\"Crystal\",\"a.dds\",T,T"));
    st.handle_event(&ev("16,ABILITY_INFO,38788,\"Other\",\"b.dds\",F,F"));
    let info = st.ability_info().get_info(&eso_lib::ids::AbilityId(38788)).unwrap();
    assert_eq!(info.name(), "\"Crystal\"");
}

#[test]
fn player_info_fills_equipment_by_slot() {
    let mut st = State::new();
    st.handle_event(&add_player7());
    st.handle_event(&ev(
        "33,PLAYER_INFO,7,[],[],[[HEAD,94779,T,16,ARMOR_DIVINES,LEGENDARY,443,INVALID,F,0,NORMAL]],[],[]",
    ));
    let u = st.entities().get(&7).unwrap();
    assert_eq!(u.equipment().len(), 1);
}

#[test]
fn handle_events_processes_in_order() {
    let mut st = State::new();
    let events = vec![add_player7(), add_monster3(), ev("400,UNIT_REMOVED,3")];
    st.handle_events(&events);
    assert!(st.entities().get(&7).is_some());
    assert!(st.entities().get(&3).is_none());
}

#[test]
fn event_iterator_yields_state_before_each_event() {
    let events = vec![add_player7(), ev("10,BEGIN_COMBAT"), ev("30,END_COMBAT")];
    let mut it = EventIterator::new(events);
    assert!(it.advance());
    // before the first event only the world unit exists
    let (st, e) = it.get().unwrap();
    assert_eq!(st.entities().len(), 1);
    assert!(e.event().unit_added().is_some());
    assert!(it.advance());
    // now the player is in, but combat has not begun yet
    let (st, e) = it.get().unwrap();
    assert!(st.entities().get(&7).is_some());
    assert_eq!(st.in_combat(), &false);
    assert!(e.event().begin_combat().is_some());
    assert!(it.advance());
    let (st, _) = it.get().unwrap();
    assert_eq!(st.in_combat(), &true);
    assert!(!it.advance());
    assert!(it.get().is_none());
}
