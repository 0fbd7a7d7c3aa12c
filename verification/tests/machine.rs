use shooter_core::machine::{Machine, Transition};

fn two_state_machine() -> Machine {
    let mut m = Machine::new(2, 0, 2).unwrap();
    assert_eq!(m.add_transition(0, 1, 500, 0), Some(0));
    assert_eq!(m.add_transition(1, 0, 200, 1), Some(1));
    m
}

#[test]
fn machine_needs_its_entry_state() {
    assert!(Machine::new(0, 0, 0).is_none());
    assert!(Machine::new(3, 3, 0).is_none());
    let m = Machine::new(3, 2, 0).unwrap();
    assert_eq!(m.active_state(), 2);
    assert_eq!(m.active_transition(), None);
    assert_eq!(m.state_count(), 3);
    assert!(m.transitions().is_empty());
}

#[test]
fn reentrant_and_dangling_transitions_are_refused() {
    let mut m = Machine::new(2, 0, 1).unwrap();
    assert_eq!(m.add_transition(0, 0, 100, 0), None);
    assert_eq!(m.add_transition(0, 2, 100, 0), None);
    assert_eq!(m.add_transition(2, 0, 100, 0), None);
    assert!(m.transitions().is_empty());
    assert_eq!(m.add_transition(0, 1, 100, 0), Some(0));
    assert_eq!(
        m.transitions().clone(),
        vec![Transition { source: 0, dest: 1, duration: 100, rule: 0 }]
    );
    assert!(Machine::with_transitions(
        2,
        0,
        1,
        vec![Transition { source: 1, dest: 1, duration: 1, rule: 0 }]
    )
    .is_none());
    assert!(Machine::with_transitions(
        2,
        0,
        1,
        vec![Transition { source: 1, dest: 0, duration: 1, rule: 0 }]
    )
    .is_some());
}

#[test]
fn nothing_happens_while_no_rule_is_on() {
    let mut m = two_state_machine();
    for _ in 0..10 {
        m.advance(1000);
        assert_eq!(m.active_state(), 0);
        assert_eq!(m.active_transition(), None);
    }
}

#[test]
fn a_transition_blends_for_its_duration_then_swaps_the_state() {
    let mut m = two_state_machine();
    m.set_parameter(0, true);
    m.advance(100);
    assert_eq!(m.active_state(), 0);
    assert_eq!(m.active_transition(), Some(0));
    assert_eq!(m.blend_factor(), 200);
    m.advance(399);
    assert_eq!(m.active_state(), 0);
    assert_eq!(m.active_transition(), Some(0));
    assert_eq!(m.blend_factor(), 998);
    m.advance(1);
    assert_eq!(m.active_state(), 1);
    assert_eq!(m.active_transition(), None);
    assert_eq!(m.blend_factor(), 0);
}

#[test]
fn a_running_transition_is_not_interrupted() {
    let mut m = two_state_machine();
    m.set_parameter(0, true);
    m.advance(100);
    m.set_parameter(0, false);
    m.set_parameter(1, true);
    m.advance(100);
    assert_eq!(m.active_transition(), Some(0));
    m.advance(300);
    assert_eq!(m.active_state(), 1);
    m.advance(100);
    assert_eq!(m.active_transition(), Some(1));
    m.advance(100);
    assert_eq!(m.active_state(), 0);
    assert_eq!(m.active_transition(), None);
}

#[test]
fn a_long_tick_completes_a_transition_at_once() {
    let mut m = two_state_machine();
    m.set_parameter(0, true);
    m.advance(u32::MAX);
    assert_eq!(m.active_state(), 1);
    assert_eq!(m.active_transition(), None);
}

#[test]
fn the_first_declared_transition_wins() {
    let mut m = Machine::new(3, 0, 2).unwrap();
    m.add_transition(0, 1, 100, 0);
    m.add_transition(0, 2, 100, 1);
    m.set_parameter(0, true);
    m.set_parameter(1, true);
    m.advance(100);
    assert_eq!(m.active_state(), 1);

    let mut m = Machine::new(3, 0, 2).unwrap();
    m.add_transition(0, 1, 100, 0);
    m.add_transition(0, 2, 100, 1);
    m.set_parameter(1, true);
    m.advance(100);
    assert_eq!(m.active_state(), 2);
}

#[test]
fn an_undeclared_rule_is_off_and_cannot_be_set() {
    let mut m = Machine::new(2, 0, 1).unwrap();
    m.add_transition(0, 1, 100, 5);
    m.set_parameter(5, true);
    assert!(!m.rule_on(5));
    m.advance(1000);
    assert_eq!(m.active_state(), 0);
    assert_eq!(m.active_transition(), None);
    m.set_rules(vec![false, false, false, false, false, true]);
    assert!(m.rule_on(5));
    m.advance(1000);
    assert_eq!(m.active_state(), 1);
}

#[test]
fn a_state_without_exits_is_terminal() {
    let mut m = Machine::new(3, 0, 2).unwrap();
    m.add_transition(0, 1, 0, 0);
    m.add_transition(1, 2, 0, 1);
    assert!(!m.is_terminal(0));
    assert!(!m.is_terminal(1));
    assert!(m.is_terminal(2));
    m.set_rules(vec![true, true]);
    m.advance(0);
    assert_eq!(m.active_state(), 1);
    m.advance(0);
    assert_eq!(m.active_state(), 2);
    for dt in [0, 1, 1000, u32::MAX] {
        m.advance(dt);
        assert_eq!(m.active_state(), 2);
        assert_eq!(m.active_transition(), None);
    }
}

#[test]
fn reset_returns_to_the_entry_state() {
    let mut m = two_state_machine();
    m.set_parameter(0, true);
    m.advance(500);
    assert_eq!(m.active_state(), 1);
    m.set_parameter(1, true);
    m.advance(10);
    assert_eq!(m.active_transition(), Some(1));
    m.reset();
    assert_eq!(m.active_state(), 0);
    assert_eq!(m.active_transition(), None);
    assert_eq!(m.blend_factor(), 0);
}

#[test]
fn machines_are_well_formed_and_know_their_table() {
    let m = two_state_machine();
    assert!(m.is_wf());
    let table = vec![
        Transition { source: 0, dest: 1, duration: 500, rule: 0 },
        Transition { source: 1, dest: 0, duration: 200, rule: 1 },
    ];
    assert!(m.has_table(&table));
    assert!(!m.has_table(&table[..1].to_vec()));
    let mut other = table.clone();
    other[1].duration = 201;
    assert!(!m.has_table(&other));
    let mut running = two_state_machine();
    running.set_parameter(0, true);
    running.advance(499);
    assert!(running.is_wf());
    running.advance(1);
    assert!(running.is_wf());
}
