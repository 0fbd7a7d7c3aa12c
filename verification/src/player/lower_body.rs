//! The locomotion layer of the player: idle, walk, jump, fall, land.

use vstd::prelude::*;
use crate::machine::{Machine, MachineView, Transition};
use crate::signal::SignalQueue;

verus! {

/// What moves the layer on a tick.
#[derive(Copy, Clone, PartialEq, Eq, Structural, Debug)]
pub struct LowerBodyMachineInput {
    pub is_walking: bool,
    pub is_jumping: bool,
    pub has_ground_contact: bool,
    /// How much of running is in the walk, in thousandths. It weighs the
    /// poses and guards no transition.
    pub run_factor: u32,
    /// Whether the jump clip has played to its end.
    pub jump_ended: bool,
    /// Whether the land clip has played to its end.
    pub land_ended: bool,
}

pub struct LowerBodyMachine {
    pub machine: Machine,
    /// Signals of the jump clip that nobody has consumed yet.
    pub jump_signals: SignalQueue,
}

impl LowerBodyMachine {
    /// The signal that the jump clip fires at the moment the feet push off.
    pub const JUMP_SIGNAL: u64 = 1;

    pub const IDLE_STATE: usize = 0;

    pub const WALK_STATE: usize = 1;

    pub const JUMP_STATE: usize = 2;

    pub const FALL_STATE: usize = 3;

    pub const LAND_STATE: usize = 4;

    pub const STATE_COUNT: usize = 5;

    /// The number of the transition from state 1 to state 2.
    pub const WALK_TO_JUMP: usize = 1;

    /// The number of the transition from state 0 to state 2.
    pub const IDLE_TO_JUMP: usize = 3;

    /// The transitions, in the order in which they are tried. Rule `i`
    /// guards transition `i`.
    pub open spec fn table() -> Seq<Transition> {
        seq![
            Transition { source: 1, dest: 0, duration: 300, rule: 0 },
            Transition { source: 1, dest: 2, duration: 120, rule: 1 },
            Transition { source: 0, dest: 1, duration: 300, rule: 2 },
            Transition { source: 0, dest: 2, duration: 120, rule: 3 },
            Transition { source: 2, dest: 3, duration: 300, rule: 4 },
            Transition { source: 1, dest: 3, duration: 300, rule: 5 },
            Transition { source: 0, dest: 3, duration: 300, rule: 6 },
            Transition { source: 3, dest: 4, duration: 200, rule: 7 },
            Transition { source: 4, dest: 0, duration: 200, rule: 8 },
        ]
    }

    /// The rules that an input puts in force.
    pub open spec fn rules(input: LowerBodyMachineInput) -> Seq<bool> {
        seq![
            !input.is_walking,
            input.is_jumping,
            input.is_walking,
            input.is_jumping,
            input.jump_ended,
            !input.has_ground_contact,
            !input.has_ground_contact,
            input.has_ground_contact,
            input.land_ended,
        ]
    }

    /// Whether a machine is one of this layer.
    pub open spec fn is_layer(m: MachineView) -> bool {
        m.wf() && m.state_count == 5 && m.transitions == Self::table()
    }

    pub open spec fn wf(&self) -> bool {
        Self::is_layer(self.view())
    }

    pub open spec fn view(&self) -> MachineView {
        self.machine@
    }

    /// The layer one tick later.
    pub open spec fn applied(m: MachineView, dt: u32, input: LowerBodyMachineInput) -> MachineView {
        m.with_rules(Self::rules(input)).advance(dt)
    }

    /// The transitions of the layer.
    pub fn graph() -> (r: Vec<Transition>)
        ensures
            r@ == Self::table(),
    {
        let table: Vec<Transition> = vec![
            Transition { source: 1, dest: 0, duration: 300, rule: 0 },
            Transition { source: 1, dest: 2, duration: 120, rule: 1 },
            Transition { source: 0, dest: 1, duration: 300, rule: 2 },
            Transition { source: 0, dest: 2, duration: 120, rule: 3 },
            Transition { source: 2, dest: 3, duration: 300, rule: 4 },
            Transition { source: 1, dest: 3, duration: 300, rule: 5 },
            Transition { source: 0, dest: 3, duration: 300, rule: 6 },
            Transition { source: 3, dest: 4, duration: 200, rule: 7 },
            Transition { source: 4, dest: 0, duration: 200, rule: 8 },
        ];
        assert(table@ =~= Self::table());
        table
    }

    /// Whether the layer is well formed. Every layer that `new` makes
    /// is, and `apply` keeps it so.
    pub fn is_wf(&self) -> (r: bool)
        ensures
            r == self.wf(),
    {
        self.machine.is_wf() && self.machine.state_count() == Self::STATE_COUNT
            && self.machine.has_table(&Self::graph())
    }

    /// The layer at rest.
    pub fn new() -> (r: LowerBodyMachine)
        ensures
            r.wf(),
            r.view().active_state == Self::IDLE_STATE,
            r.view().active_transition is None,
            r.jump_signals@ == Seq::<u64>::empty(),
    {
        let table: Vec<Transition> = Self::graph();
        let built = Machine::with_transitions(Self::STATE_COUNT, Self::IDLE_STATE, 9, table);
        LowerBodyMachine { machine: built.unwrap(), jump_signals: SignalQueue::new() }
    }

    /// Runs the layer for one tick.
    pub fn apply(&mut self, dt: u32, input: LowerBodyMachineInput)
        requires
            old(self).wf(),
        ensures
            final(self).wf(),
            final(self).view() == Self::applied(old(self).view(), dt, input),
            final(self).jump_signals == old(self).jump_signals,
    {
        let rules: Vec<bool> = vec![
            !input.is_walking,
            input.is_jumping,
            input.is_walking,
            input.is_jumping,
            input.jump_ended,
            !input.has_ground_contact,
            !input.has_ground_contact,
            input.has_ground_contact,
            input.land_ended,
        ];
        assert(rules@ =~= Self::rules(input));
        self.machine.set_rules(rules);
        self.machine.advance(dt);
    }

    pub fn active_state(&self) -> (r: usize)
        ensures
            r == self.view().active_state,
    {
        self.machine.active_state()
    }

    pub fn active_transition(&self) -> (r: Option<usize>)
        ensures
            r is Some == self.view().active_transition is Some,
            r matches Some(t) ==> self.view().active_transition == Some(t as nat),
    {
        self.machine.active_transition()
    }

    /// Whether a machine of this layer is in the jump state or blends
    /// toward it.
    pub open spec fn jumping(m: MachineView) -> bool {
        ||| m.active_state == Self::JUMP_STATE
        ||| m.active_transition == Some(Self::IDLE_TO_JUMP as nat)
        ||| m.active_transition == Some(Self::WALK_TO_JUMP as nat)
    }

    pub open spec fn spec_is_jumping(&self) -> bool {
        Self::jumping(self.view())
    }

    /// Whether the legs push off or are in the air after a jump: the jump
    /// state is active, or a blend toward it runs.
    pub fn is_jumping(&self) -> (r: bool)
        ensures
            r == self.spec_is_jumping(),
    {
        let transition = self.machine.active_transition();
        let toward_jump: bool = match transition {
            Some(t) => t == Self::IDLE_TO_JUMP || t == Self::WALK_TO_JUMP,
            None => false,
        };
        self.machine.active_state() == Self::JUMP_STATE || toward_jump
    }

    /// Whether a machine of this layer neither falls nor lands.
    pub open spec fn mobile(m: MachineView) -> bool {
        m.active_state != Self::FALL_STATE && m.active_state != Self::LAND_STATE
    }

    pub open spec fn spec_can_move(&self) -> bool {
        Self::mobile(self.view())
    }

    /// Whether the legs can carry the body along: not while it falls or
    /// lands.
    pub fn can_move(&self) -> (r: bool)
        ensures
            r == self.spec_can_move(),
    {
        let state: usize = self.machine.active_state();
        state != Self::FALL_STATE && state != Self::LAND_STATE
    }
}

} // verus!
