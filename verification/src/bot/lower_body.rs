//! The locomotion layer of a bot: idle, walk, scream, dying.

use vstd::prelude::*;
use crate::machine::{lemma_terminal_forever, Machine, MachineView, Tick, Transition};
use crate::signal::SignalQueue;

verus! {

/// What moves the locomotion layer on a tick.
#[derive(Copy, Clone, PartialEq, Eq, Structural, Debug)]
pub struct LowerBodyMachineInput {
    pub walk: bool,
    pub scream: bool,
    pub dead: bool,
}

pub struct LowerBodyMachine {
    pub machine: Machine,
    /// Signals of the walk clip that nobody has consumed yet.
    pub walk_signals: SignalQueue,
}

/// How long every blend of this layer takes.
pub const BLEND_TIME: u32 = 500;

impl LowerBodyMachine {
    /// The signal that the walk clip fires whenever a foot comes down.
    pub const STEP_SIGNAL: u64 = 1;

    pub const IDLE_STATE: usize = 0;

    pub const WALK_STATE: usize = 1;

    pub const SCREAM_STATE: usize = 2;

    pub const DYING_STATE: usize = 3;

    pub const STATE_COUNT: usize = 4;

    /// The transitions, in the order in which they are tried. Rule `i`
    /// guards transition `i`. Death comes first: nothing else may start
    /// while a dead bot can still fall.
    pub open spec fn table() -> Seq<Transition> {
        seq![
            Transition { source: 0, dest: 3, duration: 500, rule: 0 },
            Transition { source: 1, dest: 3, duration: 500, rule: 1 },
            Transition { source: 2, dest: 3, duration: 500, rule: 2 },
            Transition { source: 1, dest: 0, duration: 500, rule: 3 },
            Transition { source: 1, dest: 2, duration: 500, rule: 4 },
            Transition { source: 0, dest: 1, duration: 500, rule: 5 },
            Transition { source: 0, dest: 2, duration: 500, rule: 6 },
            Transition { source: 2, dest: 1, duration: 500, rule: 7 },
            Transition { source: 2, dest: 0, duration: 500, rule: 8 },
        ]
    }

    /// The rules that an input puts in force.
    pub open spec fn rules(input: LowerBodyMachineInput) -> Seq<bool> {
        seq![
            input.dead,
            input.dead,
            input.dead,
            !input.walk,
            input.scream,
            input.walk,
            input.scream,
            !input.scream && input.walk,
            !input.scream && !input.walk,
        ]
    }

    /// Whether a machine is one of this layer.
    pub open spec fn is_layer(m: MachineView) -> bool {
        m.wf() && m.state_count == 4 && m.transitions == Self::table()
    }

    pub open spec fn wf(&self) -> bool {
        Self::is_layer(self.view())
    }

    pub open spec fn view(&self) -> MachineView {
        self.machine@
    }

    /// The layer one tick later.
    pub open spec fn applied(m: MachineView, dt: u32, input: LowerBodyMachineInput) -> MachineView {
        m.with_rules(Self::rules(input)).advance(dt)
    }

    /// The transitions of the layer.
    pub fn graph() -> (r: Vec<Transition>)
        ensures
            r@ == Self::table(),
    {
        let table: Vec<Transition> = vec![
            Transition { source: 0, dest: 3, duration: BLEND_TIME, rule: 0 },
            Transition { source: 1, dest: 3, duration: BLEND_TIME, rule: 1 },
            Transition { source: 2, dest: 3, duration: BLEND_TIME, rule: 2 },
            Transition { source: 1, dest: 0, duration: BLEND_TIME, rule: 3 },
            Transition { source: 1, dest: 2, duration: BLEND_TIME, rule: 4 },
            Transition { source: 0, dest: 1, duration: BLEND_TIME, rule: 5 },
            Transition { source: 0, dest: 2, duration: BLEND_TIME, rule: 6 },
            Transition { source: 2, dest: 1, duration: BLEND_TIME, rule: 7 },
            Transition { source: 2, dest: 0, duration: BLEND_TIME, rule: 8 },
        ];
        assert(table@ =~= Self::table());
        table
    }

    /// Whether the layer is well formed. Every layer that `new` makes
    /// is, and `apply` keeps it so.
    pub fn is_wf(&self) -> (r: bool)
        ensures
            r == self.wf(),
    {
        self.machine.is_wf() && self.machine.state_count() == Self::STATE_COUNT
            && self.machine.has_table(&Self::graph())
    }

    /// A bot at rest.
    pub fn new() -> (r: LowerBodyMachine)
        ensures
            r.wf(),
            r.view().active_state == Self::IDLE_STATE,
            r.view().active_transition is None,
            r.walk_signals@ == Seq::<u64>::empty(),
    {
        let table: Vec<Transition> = Self::graph();
        let built = Machine::with_transitions(Self::STATE_COUNT, Self::IDLE_STATE, 9, table);
        LowerBodyMachine { machine: built.unwrap(), walk_signals: SignalQueue::new() }
    }

    /// Runs the layer for one tick.
    pub fn apply(&mut self, dt: u32, input: LowerBodyMachineInput)
        requires
            old(self).wf(),
        ensures
            final(self).wf(),
            final(self).view() == Self::applied(old(self).view(), dt, input),
            final(self).walk_signals == old(self).walk_signals,
    {
        let rules: Vec<bool> = vec![
            input.dead,
            input.dead,
            input.dead,
            !input.walk,
            input.scream,
            input.walk,
            input.scream,
            !input.scream && input.walk,
            !input.scream && !input.walk,
        ];
        assert(rules@ =~= Self::rules(input));
        self.machine.set_rules(rules);
        self.machine.advance(dt);
    }

    pub fn active_state(&self) -> (r: usize)
        ensures
            r == self.view().active_state,
    {
        self.machine.active_state()
    }

    pub fn active_transition(&self) -> (r: Option<usize>)
        ensures
            r is Some == self.view().active_transition is Some,
            r matches Some(t) ==> self.view().active_transition == Some(t as nat),
    {
        self.machine.active_transition()
    }

    pub open spec fn spec_is_walking(&self) -> bool {
        self.view().active_state == Self::WALK_STATE
    }

    /// Whether the walk clip drives the legs.
    pub fn is_walking(&self) -> (r: bool)
        ensures
            r == self.spec_is_walking(),
    {
        self.machine.active_state() == Self::WALK_STATE
    }

    pub open spec fn spec_is_dying(&self) -> bool {
        self.view().active_state == Self::DYING_STATE
    }

    /// Whether the bot has fallen for good.
    pub fn is_dying(&self) -> (r: bool)
        ensures
            r == self.spec_is_dying(),
    {
        self.machine.active_state() == Self::DYING_STATE
    }
}

/// Nothing leads out of the dying state.
pub proof fn lemma_dying_is_terminal(m: MachineView)
    requires
        LowerBodyMachine::is_layer(m),
    ensures
        m.is_terminal(LowerBodyMachine::DYING_STATE as nat),
{
}

/// A bot whose legs have given way stays down, whatever it is told on
/// any later tick.
pub proof fn lemma_dying_forever(m: MachineView, ticks: Seq<Tick>)
    requires
        LowerBodyMachine::is_layer(m),
        m.active_state == LowerBodyMachine::DYING_STATE,
    ensures
        LowerBodyMachine::is_layer(m.run(ticks)),
        m.run(ticks).active_state == LowerBodyMachine::DYING_STATE,
{
    lemma_dying_is_terminal(m);
    lemma_terminal_forever(m, ticks);
}

} // verus!
