//! The action layer of a bot: idle, walk, scream, attack, aim, dying.

use vstd::prelude::*;
use crate::machine::{lemma_terminal_forever, Machine, MachineView, Tick, Transition};
use crate::signal::SignalQueue;

verus! {

/// What moves the action layer on a tick.
#[derive(Copy, Clone, PartialEq, Eq, Structural, Debug)]
pub struct UpperBodyMachineInput {
    pub attack: bool,
    pub walk: bool,
    pub scream: bool,
    pub dead: bool,
    pub aim: bool,
}

pub struct UpperBodyMachine {
    pub machine: Machine,
    /// Signals of the attack clip that nobody has consumed yet.
    pub attack_signals: SignalQueue,
}

/// How long every blend of this layer takes.
pub const BLEND_TIME: u32 = 500;

impl UpperBodyMachine {
    /// The signal that the attack clip fires at the moment the blow
    /// lands.
    pub const HIT_SIGNAL: u64 = 1;

    pub const IDLE_STATE: usize = 0;

    pub const WALK_STATE: usize = 1;

    pub const SCREAM_STATE: usize = 2;

    pub const ATTACK_STATE: usize = 3;

    pub const AIM_STATE: usize = 4;

    pub const DYING_STATE: usize = 5;

    pub const STATE_COUNT: usize = 6;

    /// The transitions, in the order in which they are tried. Rule `i`
    /// guards transition `i`. Death comes first, then the way from each
    /// state to the others.
    pub open spec fn table() -> Seq<Transition> {
        seq![
            Transition { source: 0, dest: 5, duration: 500, rule: 0 },
            Transition { source: 1, dest: 5, duration: 500, rule: 1 },
            Transition { source: 2, dest: 5, duration: 500, rule: 2 },
            Transition { source: 3, dest: 5, duration: 500, rule: 3 },
            Transition { source: 4, dest: 5, duration: 500, rule: 4 },
            Transition { source: 1, dest: 0, duration: 500, rule: 5 },
            Transition { source: 1, dest: 2, duration: 500, rule: 6 },
            Transition { source: 1, dest: 3, duration: 500, rule: 7 },
            Transition { source: 1, dest: 4, duration: 500, rule: 8 },
            Transition { source: 0, dest: 1, duration: 500, rule: 9 },
            Transition { source: 0, dest: 2, duration: 500, rule: 10 },
            Transition { source: 0, dest: 3, duration: 500, rule: 11 },
            Transition { source: 0, dest: 4, duration: 500, rule: 12 },
            Transition { source: 2, dest: 1, duration: 500, rule: 13 },
            Transition { source: 2, dest: 0, duration: 500, rule: 14 },
            Transition { source: 3, dest: 1, duration: 500, rule: 15 },
            Transition { source: 3, dest: 0, duration: 500, rule: 16 },
            Transition { source: 4, dest: 3, duration: 500, rule: 17 },
            Transition { source: 4, dest: 1, duration: 500, rule: 18 },
            Transition { source: 4, dest: 0, duration: 500, rule: 19 },
        ]
    }

    /// The rules that an input puts in force.
    pub open spec fn rules(input: UpperBodyMachineInput) -> Seq<bool> {
        seq![
            input.dead,
            input.dead,
            input.dead,
            input.dead,
            input.dead,
            !input.walk,
            input.scream,
            input.attack,
            input.aim,
            input.walk,
            input.scream,
            input.attack,
            input.aim,
            !input.scream && input.walk,
            !input.scream && !input.walk,
            !input.attack && input.walk,
            !input.attack && !input.walk,
            input.attack,
            !input.aim && input.walk,
            !input.aim && !input.walk,
        ]
    }

    /// Whether a machine is one of this layer.
    pub open spec fn is_layer(m: MachineView) -> bool {
        m.wf() && m.state_count == 6 && m.transitions == Self::table()
    }

    pub open spec fn wf(&self) -> bool {
        Self::is_layer(self.view())
    }

    pub open spec fn view(&self) -> MachineView {
        self.machine@
    }

    /// The layer one tick later.
    pub open spec fn applied(m: MachineView, dt: u32, input: UpperBodyMachineInput) -> MachineView {
        m.with_rules(Self::rules(input)).advance(dt)
    }

    /// The transitions of the layer.
    pub fn graph() -> (r: Vec<Transition>)
        ensures
            r@ == Self::table(),
    {
        let table: Vec<Transition> = vec![
            Transition { source: 0, dest: 5, duration: BLEND_TIME, rule: 0 },
            Transition { source: 1, dest: 5, duration: BLEND_TIME, rule: 1 },
            Transition { source: 2, dest: 5, duration: BLEND_TIME, rule: 2 },
            Transition { source: 3, dest: 5, duration: BLEND_TIME, rule: 3 },
            Transition { source: 4, dest: 5, duration: BLEND_TIME, rule: 4 },
            Transition { source: 1, dest: 0, duration: BLEND_TIME, rule: 5 },
            Transition { source: 1, dest: 2, duration: BLEND_TIME, rule: 6 },
            Transition { source: 1, dest: 3, duration: BLEND_TIME, rule: 7 },
            Transition { source: 1, dest: 4, duration: BLEND_TIME, rule: 8 },
            Transition { source: 0, dest: 1, duration: BLEND_TIME, rule: 9 },
            Transition { source: 0, dest: 2, duration: BLEND_TIME, rule: 10 },
            Transition { source: 0, dest: 3, duration: BLEND_TIME, rule: 11 },
            Transition { source: 0, dest: 4, duration: BLEND_TIME, rule: 12 },
            Transition { source: 2, dest: 1, duration: BLEND_TIME, rule: 13 },
            Transition { source: 2, dest: 0, duration: BLEND_TIME, rule: 14 },
            Transition { source: 3, dest: 1, duration: BLEND_TIME, rule: 15 },
            Transition { source: 3, dest: 0, duration: BLEND_TIME, rule: 16 },
            Transition { source: 4, dest: 3, duration: BLEND_TIME, rule: 17 },
            Transition { source: 4, dest: 1, duration: BLEND_TIME, rule: 18 },
            Transition { source: 4, dest: 0, duration: BLEND_TIME, rule: 19 },
        ];
        assert(table@ =~= Self::table());
        table
    }

    /// Whether the layer is well formed. Every layer that `new` makes
    /// is, and `apply` keeps it so.
    pub fn is_wf(&self) -> (r: bool)
        ensures
            r == self.wf(),
    {
        self.machine.is_wf() && self.machine.state_count() == Self::STATE_COUNT
            && self.machine.has_table(&Self::graph())
    }

    /// A bot at rest.
    pub fn new() -> (r: UpperBodyMachine)
        ensures
            r.wf(),
            r.view().active_state == Self::IDLE_STATE,
            r.view().active_transition is None,
            r.attack_signals@ == Seq::<u64>::empty(),
    {
        let table: Vec<Transition> = Self::graph();
        let built = Machine::with_transitions(Self::STATE_COUNT, Self::IDLE_STATE, 20, table);
        UpperBodyMachine { machine: built.unwrap(), attack_signals: SignalQueue::new() }
    }

    /// Runs the layer for one tick.
    pub fn apply(&mut self, dt: u32, input: UpperBodyMachineInput)
        requires
            old(self).wf(),
        ensures
            final(self).wf(),
            final(self).view() == Self::applied(old(self).view(), dt, input),
            final(self).attack_signals == old(self).attack_signals,
    {
        let rules: Vec<bool> = vec![
            input.dead,
            input.dead,
            input.dead,
            input.dead,
            input.dead,
            !input.walk,
            input.scream,
            input.attack,
            input.aim,
            input.walk,
            input.scream,
            input.attack,
            input.aim,
            !input.scream && input.walk,
            !input.scream && !input.walk,
            !input.attack && input.walk,
            !input.attack && !input.walk,
            input.attack,
            !input.aim && input.walk,
            !input.aim && !input.walk,
        ];
        assert(rules@ =~= Self::rules(input));
        self.machine.set_rules(rules);
        self.machine.advance(dt);
    }

    pub fn active_state(&self) -> (r: usize)
        ensures
            r == self.view().active_state,
    {
        self.machine.active_state()
    }

    pub fn active_transition(&self) -> (r: Option<usize>)
        ensures
            r is Some == self.view().active_transition is Some,
            r matches Some(t) ==> self.view().active_transition == Some(t as nat),
    {
        self.machine.active_transition()
    }

    pub open spec fn spec_is_aiming(&self) -> bool {
        self.view().active_state == Self::AIM_STATE
    }

    /// Whether the bot holds its weapon up.
    pub fn is_aiming(&self) -> (r: bool)
        ensures
            r == self.spec_is_aiming(),
    {
        self.machine.active_state() == Self::AIM_STATE
    }

    pub open spec fn spec_is_dying(&self) -> bool {
        self.view().active_state == Self::DYING_STATE
    }

    /// Whether the bot has fallen for good.
    pub fn is_dying(&self) -> (r: bool)
        ensures
            r == self.spec_is_dying(),
    {
        self.machine.active_state() == Self::DYING_STATE
    }
}

/// Nothing leads out of the dying state.
pub proof fn lemma_dying_is_terminal(m: MachineView)
    requires
        UpperBodyMachine::is_layer(m),
    ensures
        m.is_terminal(UpperBodyMachine::DYING_STATE as nat),
{
}

/// Death is final: once the action layer has reached the dying state it
/// is in that state after every further sequence of ticks, whatever the
/// rules in force on each of them.
pub proof fn lemma_dying_forever(m: MachineView, ticks: Seq<Tick>)
    requires
        UpperBodyMachine::is_layer(m),
        m.active_state == UpperBodyMachine::DYING_STATE,
    ensures
        UpperBodyMachine::is_layer(m.run(ticks)),
        m.run(ticks).active_state == UpperBodyMachine::DYING_STATE,
{
    lemma_dying_is_terminal(m);
    lemma_terminal_forever(m, ticks);
}

/// A dead bot at rest starts to fall on its very next tick: from any
/// state but the dying one, with no blend running, the layer either
/// blends toward the dying state or has reached it.
pub proof fn lemma_dead_starts_dying(m: MachineView, dt: u32, input: UpperBodyMachineInput)
    requires
        UpperBodyMachine::is_layer(m),
        m.active_transition is None,
        input.dead,
    ensures
        ({
            let next = UpperBodyMachine::applied(m, dt, input);
            ||| next.active_state == UpperBodyMachine::DYING_STATE
            ||| next.active_transition matches Some(t) && next.transitions[t as int].dest
                == UpperBodyMachine::DYING_STATE
        }),
{
    let armed = m.with_rules(UpperBodyMachine::rules(input));
    crate::machine::lemma_first_enabled_is_least(armed, 0);
    if m.active_state != UpperBodyMachine::DYING_STATE {
        assert(armed.enabled(m.active_state as int));
    }
}

} // verus!
