//! The action layer of the player: idle, walk, jump, fall, land, aim, toss a
//! grenade, put the weapon back, grab the next one.

use vstd::prelude::*;
use crate::machine::{Machine, MachineView, Transition};
use crate::signal::SignalQueue;

verus! {

/// The kind of weapon that the player holds, as far as poses go.
#[derive(Copy, Clone, PartialEq, Eq, Structural, Debug)]
pub enum CombatWeaponKind {
    Pistol,
    Rifle,
}

/// What moves the layer on a tick.
#[derive(Copy, Clone, PartialEq, Eq, Structural, Debug)]
pub struct UpperBodyMachineInput {
    pub is_walking: bool,
    pub is_jumping: bool,
    pub has_ground_contact: bool,
    pub is_aiming: bool,
    pub toss_grenade: bool,
    /// The kind of weapon in hand. It picks the poses and guards no
    /// transition.
    pub weapon: CombatWeaponKind,
    /// Whether a change of weapon is pending.
    pub change_weapon: bool,
    /// How much of running is in the walk, in thousandths. It weighs the
    /// poses and guards no transition.
    pub run_factor: u32,
    /// Whether the jump clip has played to its end.
    pub jump_ended: bool,
    /// Whether the land clip has played to its end.
    pub land_ended: bool,
    /// Whether the toss clip has played to its end.
    pub toss_grenade_ended: bool,
    /// Whether the put-back clip has played to its end.
    pub put_back_ended: bool,
    /// Whether the grab clip has played to its end.
    pub grab_ended: bool,
}

pub struct UpperBodyMachine {
    pub machine: Machine,
    /// Signals of the grab clip that nobody has consumed yet.
    pub grab_signals: SignalQueue,
    /// Signals of the put-back clip that nobody has consumed yet.
    pub put_back_signals: SignalQueue,
    /// Signals of the toss clip that nobody has consumed yet.
    pub toss_grenade_signals: SignalQueue,
}

impl UpperBodyMachine {
    /// The signal that the grab clip fires when the hand closes on the
    /// weapon.
    pub const GRAB_WEAPON_SIGNAL: u64 = 1;

    /// The signal that the put-back clip fires when the weapon is stowed.
    pub const PUT_BACK_WEAPON_END_SIGNAL: u64 = 2;

    /// The signal that the toss clip fires when the grenade leaves the
    /// hand.
    pub const TOSS_GRENADE_SIGNAL: u64 = 3;

    pub const IDLE_STATE: usize = 0;

    pub const WALK_STATE: usize = 1;

    pub const JUMP_STATE: usize = 2;

    pub const FALL_STATE: usize = 3;

    pub const LAND_STATE: usize = 4;

    pub const AIM_STATE: usize = 5;

    pub const TOSS_GRENADE_STATE: usize = 6;

    pub const PUT_BACK_STATE: usize = 7;

    pub const GRAB_STATE: usize = 8;

    pub const STATE_COUNT: usize = 9;

    /// The transitions, in the order in which they are tried. Rule `i`
    /// guards transition `i`.
    pub open spec fn table() -> Seq<Transition> {
        seq![
            Transition { source: 0, dest: 7, duration: 100, rule: 0 },
            Transition { source: 0, dest: 6, duration: 100, rule: 1 },
            Transition { source: 0, dest: 5, duration: 300, rule: 2 },
            Transition { source: 0, dest: 2, duration: 120, rule: 3 },
            Transition { source: 0, dest: 3, duration: 300, rule: 4 },
            Transition { source: 0, dest: 1, duration: 300, rule: 5 },
            Transition { source: 1, dest: 7, duration: 100, rule: 6 },
            Transition { source: 1, dest: 6, duration: 100, rule: 7 },
            Transition { source: 1, dest: 5, duration: 300, rule: 8 },
            Transition { source: 1, dest: 2, duration: 120, rule: 9 },
            Transition { source: 1, dest: 3, duration: 300, rule: 10 },
            Transition { source: 1, dest: 0, duration: 300, rule: 11 },
            Transition { source: 2, dest: 3, duration: 300, rule: 12 },
            Transition { source: 3, dest: 4, duration: 200, rule: 13 },
            Transition { source: 4, dest: 0, duration: 200, rule: 14 },
            Transition { source: 5, dest: 7, duration: 100, rule: 15 },
            Transition { source: 5, dest: 6, duration: 100, rule: 16 },
            Transition { source: 5, dest: 1, duration: 300, rule: 17 },
            Transition { source: 5, dest: 0, duration: 300, rule: 18 },
            Transition { source: 6, dest: 5, duration: 100, rule: 19 },
            Transition { source: 6, dest: 0, duration: 100, rule: 20 },
            Transition { source: 7, dest: 8, duration: 100, rule: 21 },
            Transition { source: 8, dest: 5, duration: 100, rule: 22 },
            Transition { source: 8, dest: 0, duration: 100, rule: 23 },
        ]
    }

    /// The rules that an input puts in force.
    pub open spec fn rules(input: UpperBodyMachineInput) -> Seq<bool> {
        seq![
            input.change_weapon,
            input.toss_grenade,
            input.is_aiming,
            input.is_jumping,
            !input.has_ground_contact,
            input.is_walking,
            input.change_weapon,
            input.toss_grenade,
            input.is_aiming,
            input.is_jumping,
            !input.has_ground_contact,
            !input.is_walking,
            input.jump_ended,
            input.has_ground_contact,
            input.land_ended,
            input.change_weapon,
            input.toss_grenade,
            !input.is_aiming && input.is_walking,
            !input.is_aiming && !input.is_walking,
            input.toss_grenade_ended && input.is_aiming,
            input.toss_grenade_ended && !input.is_aiming,
            input.put_back_ended,
            input.grab_ended && input.is_aiming,
            input.grab_ended && !input.is_aiming,
        ]
    }

    /// Whether a machine is one of this layer.
    pub open spec fn is_layer(m: MachineView) -> bool {
        m.wf() && m.state_count == 9 && m.transitions == Self::table()
    }

    pub open spec fn wf(&self) -> bool {
        Self::is_layer(self.view())
    }

    pub open spec fn view(&self) -> MachineView {
        self.machine@
    }

    /// The layer one tick later.
    pub open spec fn applied(m: MachineView, dt: u32, input: UpperBodyMachineInput) -> MachineView {
        m.with_rules(Self::rules(input)).advance(dt)
    }

    /// The transitions of the layer.
    pub fn graph() -> (r: Vec<Transition>)
        ensures
            r@ == Self::table(),
    {
        let table: Vec<Transition> = vec![
            Transition { source: 0, dest: 7, duration: 100, rule: 0 },
            Transition { source: 0, dest: 6, duration: 100, rule: 1 },
            Transition { source: 0, dest: 5, duration: 300, rule: 2 },
            Transition { source: 0, dest: 2, duration: 120, rule: 3 },
            Transition { source: 0, dest: 3, duration: 300, rule: 4 },
            Transition { source: 0, dest: 1, duration: 300, rule: 5 },
            Transition { source: 1, dest: 7, duration: 100, rule: 6 },
            Transition { source: 1, dest: 6, duration: 100, rule: 7 },
            Transition { source: 1, dest: 5, duration: 300, rule: 8 },
            Transition { source: 1, dest: 2, duration: 120, rule: 9 },
            Transition { source: 1, dest: 3, duration: 300, rule: 10 },
            Transition { source: 1, dest: 0, duration: 300, rule: 11 },
            Transition { source: 2, dest: 3, duration: 300, rule: 12 },
            Transition { source: 3, dest: 4, duration: 200, rule: 13 },
            Transition { source: 4, dest: 0, duration: 200, rule: 14 },
            Transition { source: 5, dest: 7, duration: 100, rule: 15 },
            Transition { source: 5, dest: 6, duration: 100, rule: 16 },
            Transition { source: 5, dest: 1, duration: 300, rule: 17 },
            Transition { source: 5, dest: 0, duration: 300, rule: 18 },
            Transition { source: 6, dest: 5, duration: 100, rule: 19 },
            Transition { source: 6, dest: 0, duration: 100, rule: 20 },
            Transition { source: 7, dest: 8, duration: 100, rule: 21 },
            Transition { source: 8, dest: 5, duration: 100, rule: 22 },
            Transition { source: 8, dest: 0, duration: 100, rule: 23 },
        ];
        assert(table@ =~= Self::table());
        table
    }

    /// Whether the layer is well formed. Every layer that `new` makes
    /// is, and `apply` keeps it so.
    pub fn is_wf(&self) -> (r: bool)
        ensures
            r == self.wf(),
    {
        self.machine.is_wf() && self.machine.state_count() == Self::STATE_COUNT
            && self.machine.has_table(&Self::graph())
    }

    /// The layer at rest.
    pub fn new() -> (r: UpperBodyMachine)
        ensures
            r.wf(),
            r.view().active_state == Self::IDLE_STATE,
            r.view().active_transition is None,
            r.grab_signals@ == Seq::<u64>::empty(),
            r.put_back_signals@ == Seq::<u64>::empty(),
            r.toss_grenade_signals@ == Seq::<u64>::empty(),
    {
        let table: Vec<Transition> = Self::graph();
        let built = Machine::with_transitions(Self::STATE_COUNT, Self::IDLE_STATE, 24, table);
        UpperBodyMachine { machine: built.unwrap(), grab_signals: SignalQueue::new(), put_back_signals: SignalQueue::new(), toss_grenade_signals: SignalQueue::new() }
    }

    /// Runs the layer for one tick.
    pub fn apply(&mut self, dt: u32, input: UpperBodyMachineInput)
        requires
            old(self).wf(),
        ensures
            final(self).wf(),
            final(self).view() == Self::applied(old(self).view(), dt, input),
            final(self).grab_signals == old(self).grab_signals,
            final(self).put_back_signals == old(self).put_back_signals,
            final(self).toss_grenade_signals == old(self).toss_grenade_signals,
    {
        let rules: Vec<bool> = vec![
            input.change_weapon,
            input.toss_grenade,
            input.is_aiming,
            input.is_jumping,
            !input.has_ground_contact,
            input.is_walking,
            input.change_weapon,
            input.toss_grenade,
            input.is_aiming,
            input.is_jumping,
            !input.has_ground_contact,
            !input.is_walking,
            input.jump_ended,
            input.has_ground_contact,
            input.land_ended,
            input.change_weapon,
            input.toss_grenade,
            !input.is_aiming && input.is_walking,
            !input.is_aiming && !input.is_walking,
            input.toss_grenade_ended && input.is_aiming,
            input.toss_grenade_ended && !input.is_aiming,
            input.put_back_ended,
            input.grab_ended && input.is_aiming,
            input.grab_ended && !input.is_aiming,
        ];
        assert(rules@ =~= Self::rules(input));
        self.machine.set_rules(rules);
        self.machine.advance(dt);
    }

    pub fn active_state(&self) -> (r: usize)
        ensures
            r == self.view().active_state,
    {
        self.machine.active_state()
    }

    pub fn active_transition(&self) -> (r: Option<usize>)
        ensures
            r is Some == self.view().active_transition is Some,
            r matches Some(t) ==> self.view().active_transition == Some(t as nat),
    {
        self.machine.active_transition()
    }

    pub open spec fn spec_is_aiming(&self) -> bool {
        self.view().active_state == Self::AIM_STATE
    }

    /// Whether the player holds the weapon up.
    pub fn is_aiming(&self) -> (r: bool)
        ensures
            r == self.spec_is_aiming(),
    {
        self.machine.active_state() == Self::AIM_STATE
    }
}

} // verus!
