//! Animation state machines.
//!
//! A machine is a directed graph of states. Exactly one state is active.
//! A transition leads from its source to its destination and is guarded
//! by a rule, a named boolean that the owner of the machine sets before
//! every tick. While no transition is running, the first transition in
//! declaration order that leaves the active state and whose rule is on
//! starts. A running transition blends from its source to its destination
//! for its duration; the source stays the active state until the blend is
//! complete, then the destination takes over.

use vstd::prelude::*;

verus! {

/// An edge of the graph.
#[derive(Copy, Clone, PartialEq, Eq, Structural, Debug)]
pub struct Transition {
    /// The state that the transition leaves.
    pub source: usize,
    /// The state that it enters when the blend is complete.
    pub dest: usize,
    /// How long the blend takes, in thousandths of a second.
    pub duration: u32,
    /// The rule that starts it.
    pub rule: usize,
}

/// A state machine with its graph, its rules and its position.
#[derive(Clone, Debug)]
pub struct Machine {
    state_count: usize,
    transitions: Vec<Transition>,
    rules: Vec<bool>,
    active_state: usize,
    entry_state: usize,
    active_transition: Option<usize>,
    elapsed: u32,
}

/// What a machine is, as mathematics.
pub ghost struct MachineView {
    /// States are numbered from zero to `state_count - 1`.
    pub state_count: nat,
    /// The edges, in declaration order.
    pub transitions: Seq<Transition>,
    /// The value of every rule; a rule beyond the end is off.
    pub rules: Seq<bool>,
    pub active_state: nat,
    /// The state that `reset` returns to.
    pub entry_state: nat,
    /// The transition that is blending, if any.
    pub active_transition: Option<nat>,
    /// How long the running transition has blended.
    pub elapsed: nat,
}

/// One tick as a machine sees it: the rules in force and the time that
/// passes.
pub ghost struct Tick {
    pub rules: Seq<bool>,
    pub dt: u32,
}

impl MachineView {
    /// The graph is closed, no edge loops back on its source, and the
    /// position lies within the graph.
    pub open spec fn wf(self) -> bool {
        &&& self.active_state < self.state_count
        &&& self.entry_state < self.state_count
        &&& forall|i: int|
            0 <= i < self.transitions.len() ==> {
                &&& (#[trigger] self.transitions[i]).source < self.state_count
                &&& self.transitions[i].dest < self.state_count
                &&& self.transitions[i].source != self.transitions[i].dest
            }
        &&& match self.active_transition {
            Some(t) => {
                &&& t < self.transitions.len()
                &&& self.transitions[t as int].source == self.active_state
                &&& self.elapsed < self.transitions[t as int].duration
            },
            None => self.elapsed == 0,
        }
    }

    /// Whether a rule is on. A rule that was never declared is off.
    pub open spec fn rule_on(self, rule: usize) -> bool {
        rule < self.rules.len() && self.rules[rule as int]
    }

    /// Whether transition `i` may start now.
    pub open spec fn enabled(self, i: int) -> bool {
        &&& 0 <= i < self.transitions.len()
        &&& self.transitions[i].source == self.active_state
        &&& self.rule_on(self.transitions[i].rule)
    }

    /// The first enabled transition at or after `k`.
    pub open spec fn first_enabled_from(self, k: int) -> Option<int>
        decreases self.transitions.len() - k,
    {
        if k < 0 || k >= self.transitions.len() {
            None
        } else if self.enabled(k) {
            Some(k)
        } else {
            self.first_enabled_from(k + 1)
        }
    }

    /// The transition that blends during the coming tick: the running
    /// one, else the first that may start.
    pub open spec fn selected(self) -> Option<int> {
        match self.active_transition {
            Some(t) => Some(t as int),
            None => self.first_enabled_from(0),
        }
    }

    /// The machine after a tick of length `dt`.
    pub open spec fn advance(self, dt: u32) -> MachineView {
        match self.selected() {
            None => self,
            Some(t) => {
                let transition = self.transitions[t];
                if self.elapsed + dt >= transition.duration {
                    MachineView {
                        active_state: transition.dest as nat,
                        active_transition: None,
                        elapsed: 0,
                        ..self
                    }
                } else {
                    MachineView {
                        active_transition: Some(t as nat),
                        elapsed: self.elapsed + dt as nat,
                        ..self
                    }
                }
            },
        }
    }

    /// The machine with other rules in force.
    pub open spec fn with_rules(self, rules: Seq<bool>) -> MachineView {
        MachineView { rules, ..self }
    }

    /// The machine after a sequence of ticks.
    pub open spec fn run(self, ticks: Seq<Tick>) -> MachineView
        decreases ticks.len(),
    {
        if ticks.len() == 0 {
            self
        } else {
            self.run(ticks.drop_last()).with_rules(ticks.last().rules).advance(ticks.last().dt)
        }
    }

    /// A state that no transition leaves.
    pub open spec fn is_terminal(self, state: nat) -> bool {
        forall|i: int|
            0 <= i < self.transitions.len() ==> (#[trigger] self.transitions[i]).source != state
    }

    /// How far the running blend has come, in thousandths: zero at the
    /// source, a thousand at the destination.
    pub open spec fn blend_factor(self) -> int {
        match self.active_transition {
            Some(t) => (self.elapsed as int) * 1000 / (self.transitions[t as int].duration as int),
            None => 0,
        }
    }

    /// The machine as `Machine::new` makes it.
    pub open spec fn initial(state_count: usize, entry_state: usize, rule_count: usize) -> MachineView {
        MachineView {
            state_count: state_count as nat,
            transitions: Seq::empty(),
            rules: Seq::new(rule_count as nat, |i: int| false),
            active_state: entry_state as nat,
            entry_state: entry_state as nat,
            active_transition: None,
            elapsed: 0,
        }
    }

    /// Whether every edge of `table` may stand in a graph of `state_count`
    /// states.
    pub open spec fn table_ok(state_count: usize, table: Seq<Transition>) -> bool {
        forall|i: int|
            0 <= i < table.len() ==> {
                &&& (#[trigger] table[i]).source < state_count
                &&& table[i].dest < state_count
                &&& table[i].source != table[i].dest
            }
    }

    /// The machine with `table` for its edges.
    pub open spec fn with_table(self, table: Seq<Transition>) -> MachineView {
        MachineView { transitions: table, ..self }
    }

    /// Whether an edge may be added to the graph.
    pub open spec fn admits(self, source: usize, dest: usize) -> bool {
        source < self.state_count && dest < self.state_count && source != dest
    }

    /// The machine with one more edge, last in declaration order.
    pub open spec fn with_transition(self, transition: Transition) -> MachineView {
        MachineView { transitions: self.transitions.push(transition), ..self }
    }

    /// The machine with one rule set. Setting a rule that was never
    /// declared changes nothing.
    pub open spec fn with_rule(self, rule: usize, value: bool) -> MachineView {
        if rule < self.rules.len() {
            MachineView { rules: self.rules.update(rule as int, value), ..self }
        } else {
            self
        }
    }

    /// The machine back at its entry state, with no blend running.
    pub open spec fn restarted(self) -> MachineView {
        MachineView {
            active_state: self.entry_state,
            active_transition: None,
            elapsed: 0,
            ..self
        }
    }
}

/// `first_enabled_from` finds the least enabled transition at or after
/// `k`: transitions are tried in declaration order.
pub proof fn lemma_first_enabled_is_least(m: MachineView, k: int)
    requires
        0 <= k,
    ensures
        match m.first_enabled_from(k) {
            Some(i) => k <= i && m.enabled(i) && forall|j: int| k <= j < i ==> !m.enabled(j),
            None => forall|j: int| k <= j ==> !m.enabled(j),
        },
    decreases m.transitions.len() - k,
{
    if k < m.transitions.len() && !m.enabled(k) {
        lemma_first_enabled_is_least(m, k + 1);
    }
}

/// A tick leaves a well-formed machine well formed: it has one active
/// state before the tick and one after it, and at most one running
/// transition, which leaves the active state.
pub proof fn lemma_advance_preserves_wf(m: MachineView, dt: u32)
    requires
        m.wf(),
    ensures
        m.advance(dt).wf(),
        m.advance(dt).state_count == m.state_count,
        m.advance(dt).transitions == m.transitions,
        m.advance(dt).rules == m.rules,
        m.advance(dt).entry_state == m.entry_state,
{
    lemma_first_enabled_is_least(m, 0);
}

/// A state that no transition leaves is never left, whatever the rules
/// and however long the tick.
pub proof fn lemma_terminal_is_absorbing(m: MachineView, dt: u32)
    requires
        m.wf(),
        m.is_terminal(m.active_state),
    ensures
        m.advance(dt) == m,
{
    lemma_first_enabled_is_least(m, 0);
}

/// Once a machine has reached a state that no transition leaves, it is
/// in that state after every further sequence of ticks.
pub proof fn lemma_terminal_forever(m: MachineView, ticks: Seq<Tick>)
    requires
        m.wf(),
        m.is_terminal(m.active_state),
    ensures
        m.run(ticks).wf(),
        m.run(ticks).active_state == m.active_state,
        m.run(ticks).active_transition is None,
        m.run(ticks).transitions == m.transitions,
        m.run(ticks).state_count == m.state_count,
    decreases ticks.len(),
{
    if ticks.len() > 0 {
        lemma_terminal_forever(m, ticks.drop_last());
        let before = m.run(ticks.drop_last()).with_rules(ticks.last().rules);
        assert(before.is_terminal(before.active_state));
        lemma_terminal_is_absorbing(before, ticks.last().dt);
    }
}

/// Every sequence of ticks leaves a well-formed machine well formed, on
/// the same graph.
pub proof fn lemma_run_preserves_wf(m: MachineView, ticks: Seq<Tick>)
    requires
        m.wf(),
    ensures
        m.run(ticks).wf(),
        m.run(ticks).transitions == m.transitions,
        m.run(ticks).state_count == m.state_count,
    decreases ticks.len(),
{
    if ticks.len() > 0 {
        lemma_run_preserves_wf(m, ticks.drop_last());
        let before = m.run(ticks.drop_last()).with_rules(ticks.last().rules);
        lemma_advance_preserves_wf(before, ticks.last().dt);
    }
}

impl View for Machine {
    type V = MachineView;

    closed spec fn view(&self) -> MachineView {
        MachineView {
            state_count: self.state_count as nat,
            transitions: self.transitions@,
            rules: self.rules@,
            active_state: self.active_state as nat,
            entry_state: self.entry_state as nat,
            active_transition: match self.active_transition {
                Some(t) => Some(t as nat),
                None => None,
            },
            elapsed: self.elapsed as nat,
        }
    }
}

impl Machine {
    /// Well-formedness of the machine: that of its view.
    pub open spec fn wf(&self) -> bool {
        self@.wf()
    }

    /// Whether the machine is well formed. Every machine that this module
    /// hands out is, and stays so.
    pub fn is_wf(&self) -> (r: bool)
        ensures
            r == self.wf(),
    {
        if self.active_state >= self.state_count || self.entry_state >= self.state_count {
            return false;
        }
        let mut i: usize = 0;
        while i < self.transitions.len()
            invariant
                i <= self.transitions@.len(),
                forall|j: int|
                    0 <= j < i ==> {
                        &&& (#[trigger] self.transitions@[j]).source < self.state_count
                        &&& self.transitions@[j].dest < self.state_count
                        &&& self.transitions@[j].source != self.transitions@[j].dest
                    },
            decreases self.transitions@.len() - i,
        {
            let t: Transition = self.transitions[i];
            if t.source >= self.state_count || t.dest >= self.state_count || t.source == t.dest {
                assert(!self.wf()) by {
                    let bad = self@.transitions[i as int];
                }
                return false;
            }
            i += 1;
        }
        match self.active_transition {
            Some(t) => t < self.transitions.len() && self.transitions[t].source
                == self.active_state && self.elapsed < self.transitions[t].duration,
            None => self.elapsed == 0,
        }
    }

    /// Whether the transitions of the machine are those of `table`, in
    /// the same order.
    pub fn has_table(&self, table: &Vec<Transition>) -> (r: bool)
        ensures
            r == (self@.transitions == table@),
    {
        if self.transitions.len() != table.len() {
            return false;
        }
        let mut i: usize = 0;
        while i < table.len()
            invariant
                i <= table@.len(),
                self.transitions@.len() == table@.len(),
                forall|j: int| 0 <= j < i ==> self.transitions@[j] == table@[j],
            decreases table@.len() - i,
        {
            let ours: Transition = self.transitions[i];
            let theirs: Transition = table[i];
            if ours.source != theirs.source || ours.dest != theirs.dest || ours.duration
                != theirs.duration || ours.rule != theirs.rule {
                assert(self@.transitions[i as int] != table@[i as int]);
                return false;
            }
            i += 1;
        }
        assert(self@.transitions =~= table@);
        true
    }

    /// A machine of `state_count` states and `rule_count` rules, all off,
    /// with no transitions, resting in `entry_state`. There is no machine
    /// without states, nor one whose entry state is not among them.
    pub fn new(state_count: usize, entry_state: usize, rule_count: usize) -> (r: Option<Machine>)
        ensures
            r is Some <==> entry_state < state_count,
            r matches Some(m) ==> m.wf() && m@ == MachineView::initial(
                state_count,
                entry_state,
                rule_count,
            ),
    {
        if entry_state >= state_count {
            return None;
        }
        let mut rules: Vec<bool> = Vec::new();
        let mut i: usize = 0;
        while i < rule_count
            invariant
                i <= rule_count,
                rules@.len() == i,
                forall|j: int| 0 <= j < i ==> !rules@[j],
            decreases rule_count - i,
        {
            rules.push(false);
            i += 1;
        }
        let m = Machine {
            state_count,
            transitions: Vec::new(),
            rules,
            active_state: entry_state,
            entry_state,
            active_transition: None,
            elapsed: 0,
        };
        assert(m@.rules =~= Seq::new(rule_count as nat, |i: int| false));
        assert(m@.transitions =~= Seq::empty());
        Some(m)
    }

    /// A machine with all its transitions, in the order of `table`. There
    /// is no such machine if the entry state or a transition names a state
    /// outside the graph, or if a transition leads from a state to itself.
    pub fn with_transitions(
        state_count: usize,
        entry_state: usize,
        rule_count: usize,
        table: Vec<Transition>,
    ) -> (r: Option<Machine>)
        ensures
            r is Some <==> entry_state < state_count && MachineView::table_ok(state_count, table@),
            r matches Some(m) ==> m.wf() && m@ == MachineView::initial(
                state_count,
                entry_state,
                rule_count,
            ).with_table(table@),
    {
        let mut i: usize = 0;
        while i < table.len()
            invariant
                i <= table@.len(),
                MachineView::table_ok(state_count, table@.take(i as int)),
            decreases table@.len() - i,
        {
            let t: Transition = table[i];
            if t.source >= state_count || t.dest >= state_count || t.source == t.dest {
                assert(!MachineView::table_ok(state_count, table@)) by {
                    let bad = table@[i as int];
                }
                return None;
            }
            i += 1;
            assert forall|j: int| 0 <= j < i implies {
                &&& (#[trigger] table@.take(i as int)[j]).source < state_count
                &&& table@.take(i as int)[j].dest < state_count
                &&& table@.take(i as int)[j].source != table@.take(i as int)[j].dest
            } by {
                if j < i - 1 {
                    let before = table@.take(i - 1)[j];
                }
            }
        }
        assert(table@.take(i as int) =~= table@);
        match Machine::new(state_count, entry_state, rule_count) {
            Some(m) => {
                let machine = Machine {
                    state_count: m.state_count,
                    transitions: table,
                    rules: m.rules,
                    active_state: m.active_state,
                    entry_state: m.entry_state,
                    active_transition: m.active_transition,
                    elapsed: m.elapsed,
                };
                Some(machine)
            },
            None => None,
        }
    }

    /// Puts a whole set of rules in force.
    pub fn set_rules(&mut self, rules: Vec<bool>)
        requires
            old(self).wf(),
        ensures
            final(self).wf(),
            final(self)@ == old(self)@.with_rules(rules@),
    {
        self.rules = rules;
    }

    /// Declares a transition, after those declared before. A transition
    /// from a state to itself, or one that names a state outside the
    /// graph, is refused and the machine is left as it was. Returns the
    /// number of the transition.
    pub fn add_transition(&mut self, source: usize, dest: usize, duration: u32, rule: usize) -> (r:
        Option<usize>)
        requires
            old(self).wf(),
        ensures
            final(self).wf(),
            r is Some <==> old(self)@.admits(source, dest),
            r matches Some(index) ==> index == old(self)@.transitions.len() && final(self)@ == old(
                self,
            )@.with_transition(Transition { source, dest, duration, rule }),
            r is None ==> final(self)@ == old(self)@,
    {
        if source >= self.state_count || dest >= self.state_count || source == dest {
            return None;
        }
        let index: usize = self.transitions.len();
        self.transitions.push(Transition { source, dest, duration, rule });
        Some(index)
    }

    /// Sets a rule. A rule that was never declared stays off.
    pub fn set_parameter(&mut self, rule: usize, value: bool)
        requires
            old(self).wf(),
        ensures
            final(self).wf(),
            final(self)@ == old(self)@.with_rule(rule, value),
    {
        if rule < self.rules.len() {
            self.rules.set(rule, value);
        }
    }

    /// Whether a rule is on.
    pub fn rule_on(&self, rule: usize) -> (r: bool)
        ensures
            r == self@.rule_on(rule),
    {
        rule < self.rules.len() && self.rules[rule]
    }

    /// The state that is active.
    pub fn active_state(&self) -> (r: usize)
        ensures
            r == self@.active_state,
    {
        self.active_state
    }

    /// The transition that is blending, if any.
    pub fn active_transition(&self) -> (r: Option<usize>)
        ensures
            r is Some == self@.active_transition is Some,
            r matches Some(t) ==> self@.active_transition == Some(t as nat),
    {
        self.active_transition
    }

    /// The number of states.
    pub fn state_count(&self) -> (r: usize)
        ensures
            r == self@.state_count,
    {
        self.state_count
    }

    /// The transitions, in declaration order.
    pub fn transitions(&self) -> (r: &Vec<Transition>)
        ensures
            r@ == self@.transitions,
    {
        &self.transitions
    }

    /// How far the running blend has come, in thousandths.
    pub fn blend_factor(&self) -> (r: u32)
        requires
            self.wf(),
        ensures
            r == self@.blend_factor(),
            r < 1000,
    {
        match self.active_transition {
            Some(t) => {
                let duration: u64 = self.transitions[t].duration as u64;
                let scaled: u64 = self.elapsed as u64 * 1000;
                let factor: u64 = scaled / duration;
                assert(factor < 1000) by (nonlinear_arith)
                    requires
                        factor == scaled / duration,
                        scaled == self.elapsed as u64 * 1000,
                        (self.elapsed as u64) < duration,
                ;
                factor as u32
            },
            None => 0,
        }
    }

    /// Whether no transition leaves `state`.
    pub fn is_terminal(&self, state: usize) -> (r: bool)
        ensures
            r == self@.is_terminal(state as nat),
    {
        let mut i: usize = 0;
        while i < self.transitions.len()
            invariant
                i <= self.transitions.len(),
                forall|j: int| 0 <= j < i ==> (#[trigger] self.transitions@[j]).source != state,
            decreases self.transitions.len() - i,
        {
            if self.transitions[i].source == state {
                assert(self@.transitions[i as int].source == state);
                return false;
            }
            i += 1;
        }
        true
    }

    /// Returns to the entry state and drops the running blend.
    pub fn reset(&mut self)
        requires
            old(self).wf(),
        ensures
            final(self).wf(),
            final(self)@ == old(self)@.restarted(),
    {
        self.active_state = self.entry_state;
        self.active_transition = None;
        self.elapsed = 0;
    }

    fn first_enabled(&self) -> (r: Option<usize>)
        ensures
            r is Some == self@.first_enabled_from(0) is Some,
            r matches Some(i) ==> i < self@.transitions.len() && self@.first_enabled_from(0)
                == Some(i as int),
    {
        let mut i: usize = 0;
        while i < self.transitions.len()
            invariant
                i <= self.transitions.len(),
                self@.first_enabled_from(0) == self@.first_enabled_from(i as int),
            decreases self.transitions.len() - i,
        {
            let rule: usize = self.transitions[i].rule;
            if self.transitions[i].source == self.active_state && self.rule_on(rule) {
                return Some(i);
            }
            i += 1;
        }
        None
    }

    /// Runs the machine for one tick of length `dt`, in thousandths of a
    /// second: starts the first transition that may start if none is
    /// running, advances the blend, and moves to the destination when the
    /// blend is complete.
    pub fn advance(&mut self, dt: u32)
        requires
            old(self).wf(),
        ensures
            final(self).wf(),
            final(self)@ == old(self)@.advance(dt),
    {
        proof {
            lemma_advance_preserves_wf(self@, dt);
        }
        let selected: Option<usize> = match self.active_transition {
            Some(t) => Some(t),
            None => self.first_enabled(),
        };
        if let Some(t) = selected {
            let transition: Transition = self.transitions[t];
            let blended: u64 = self.elapsed as u64 + dt as u64;
            if blended >= transition.duration as u64 {
                self.active_state = transition.dest;
                self.active_transition = None;
                self.elapsed = 0;
            } else {
                self.active_transition = Some(t);
                self.elapsed = blended as u32;
            }
        }
    }
}

} // verus!
