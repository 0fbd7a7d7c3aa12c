//! Path planning over a navigation mesh.
//!
//! The mesh belongs to the host. The planner decides when to ask it for a
//! path, what to ask, what to do with the answer, and which waypoint of
//! the path the bot walks toward.

use vstd::prelude::*;
use crate::bot::targeting::Target;
use crate::math::{GameTime, Vector3};

verus! {

/// The least time between two plans, in thousandths of a second.
pub const REPLAN_INTERVAL: i64 = 1000;

/// How near a bot must come to a waypoint to turn to the next one.
pub const WAYPOINT_RADIUS: u32 = 750;

/// How far below the body the feet of a bot are.
pub const FEET_OFFSET: i32 = 1000;

/// A question for the navigation mesh: the path between the vertex
/// nearest to `from` and the vertex nearest to `to`.
#[derive(Copy, Clone, PartialEq, Eq, Structural, Debug)]
pub struct PathRequest {
    pub from: Vector3,
    pub to: Vector3,
}

pub struct PathPlanner {
    /// The waypoints, from where the bot stood to where it wants to be.
    pub path: Vec<Vector3>,
    /// The waypoint that the bot walks toward.
    pub current_path_point: usize,
    /// Where the bot walks to on this tick.
    pub move_target: Vector3,
    /// When the path was last planned.
    pub last_path_rebuild_time: i64,
}

/// What a planner is, as mathematics.
pub ghost struct PathPlan {
    pub path: Seq<Vector3>,
    pub cursor: nat,
    pub move_target: Vector3,
    pub last_rebuild: int,
}

/// One answer of the navigation mesh, and when it came.
pub ghost struct PathAnswer {
    /// The path from goal to start, or nothing if the mesh found none.
    pub found: Option<Seq<Vector3>>,
    pub elapsed: int,
}

/// A point lowered from the body of a bot to its feet.
pub open spec fn spec_feet(position: Vector3) -> Vector3 {
    Vector3 {
        x: position.x,
        y: if position.y - FEET_OFFSET >= i32::MIN {
            (position.y - FEET_OFFSET) as i32
        } else {
            i32::MIN
        },
        z: position.z,
    }
}

pub fn feet(position: Vector3) -> (r: Vector3)
    ensures
        r == spec_feet(position),
{
    Vector3 {
        x: position.x,
        y: if position.y >= i32::MIN + FEET_OFFSET {
            position.y - FEET_OFFSET
        } else {
            i32::MIN
        },
        z: position.z,
    }
}

impl PathPlan {
    /// The cursor names a waypoint, unless there is none to name.
    pub open spec fn wf(self) -> bool {
        self.path.len() == 0 || self.cursor < self.path.len()
    }

    /// Whether enough time has passed since the last plan.
    pub open spec fn due(self, elapsed: int) -> bool {
        elapsed - self.last_rebuild >= REPLAN_INTERVAL
    }

    /// What the planner asks the mesh, if anything.
    pub open spec fn request(
        self,
        elapsed: int,
        navmesh: bool,
        position: Vector3,
        target: Option<Target>,
    ) -> Option<PathRequest> {
        match target {
            Some(t) if self.due(elapsed) && navmesh => Some(
                PathRequest { from: spec_feet(position), to: t.position },
            ),
            _ => None,
        }
    }

    /// Whether an answer becomes the plan.
    pub open spec fn accepts(self, answer: PathAnswer) -> bool {
        self.due(answer.elapsed) && answer.found is Some
    }

    /// The planner after the mesh has answered. A path that comes in
    /// time replaces the old one, turned round so that it starts where
    /// the bot stands; the cursor returns to its first waypoint. An answer
    /// that holds no path, or that comes before a plan is due, changes
    /// nothing.
    pub open spec fn rebuilt(self, answer: PathAnswer) -> PathPlan {
        if self.accepts(answer) {
            PathPlan {
                path: answer.found->Some_0.reverse(),
                cursor: 0,
                last_rebuild: answer.elapsed,
                ..self
            }
        } else {
            self
        }
    }

    /// The planner after a sequence of answers.
    pub open spec fn rebuilt_all(self, answers: Seq<PathAnswer>) -> PathPlan
        decreases answers.len(),
    {
        if answers.len() == 0 {
            self
        } else {
            self.rebuilt_all(answers.drop_last()).rebuilt(answers.last())
        }
    }

    /// Whether the bot turns to the next waypoint.
    pub open spec fn steps(self, position: Vector3) -> bool {
        &&& self.cursor < self.path.len()
        &&& self.path[self.cursor as int].spec_within(position, WAYPOINT_RADIUS)
        &&& self.cursor < self.path.len() - 1
    }

    /// The planner after the bot has looked where it stands. It walks to
    /// the waypoint under the cursor; when it stands within reach of that
    /// waypoint and the path goes on, the cursor moves on by one.
    pub open spec fn advanced(self, position: Vector3) -> PathPlan {
        if self.cursor < self.path.len() {
            PathPlan {
                move_target: self.path[self.cursor as int],
                cursor: if self.steps(position) {
                    self.cursor + 1
                } else {
                    self.cursor
                },
                ..self
            }
        } else {
            self
        }
    }
}

/// A plan that was accepted is not replaced before a full interval has
/// passed, whatever the mesh answers in between.
pub proof fn lemma_no_replan_within_interval(plan: PathPlan, first: PathAnswer, second: PathAnswer)
    requires
        plan.accepts(first),
        first.elapsed <= second.elapsed < first.elapsed + REPLAN_INTERVAL,
    ensures
        plan.rebuilt(first).rebuilt(second) == plan.rebuilt(first),
        !plan.rebuilt(first).accepts(second),
{
}

/// However many answers arrive within one interval of an accepted plan,
/// and however short the ticks between them, none of them becomes the
/// plan.
pub proof fn lemma_replan_cadence(plan: PathPlan, first: PathAnswer, later: Seq<PathAnswer>)
    requires
        plan.accepts(first),
        forall|i: int|
            0 <= i < later.len() ==> first.elapsed <= (#[trigger] later[i]).elapsed < first.elapsed
                + REPLAN_INTERVAL,
    ensures
        plan.rebuilt(first).rebuilt_all(later) == plan.rebuilt(first),
    decreases later.len(),
{
    if later.len() > 0 {
        assert forall|i: int| 0 <= i < later.drop_last().len() implies first.elapsed <= (
        #[trigger] later.drop_last()[i]).elapsed < first.elapsed + REPLAN_INTERVAL by {
            assert(later.drop_last()[i] == later[i]);
        }
        lemma_replan_cadence(plan, first, later.drop_last());
        lemma_no_replan_within_interval(plan, first, later.last());
    }
}

/// Walking never moves the cursor back, never moves it by more than one
/// waypoint, and never past the last waypoint.
pub proof fn lemma_cursor_is_monotonic(plan: PathPlan, position: Vector3)
    requires
        plan.wf(),
    ensures
        plan.advanced(position).wf(),
        plan.advanced(position).path == plan.path,
        plan.cursor <= plan.advanced(position).cursor <= plan.cursor + 1,
        plan.path.len() > 0 ==> plan.advanced(position).cursor <= plan.path.len() - 1,
{
}

/// Every answer of the mesh leaves the cursor on a waypoint.
pub proof fn lemma_rebuilt_is_wf(plan: PathPlan, answer: PathAnswer)
    requires
        plan.wf(),
    ensures
        plan.rebuilt(answer).wf(),
{
}

impl View for PathPlanner {
    type V = PathPlan;

    open spec fn view(&self) -> PathPlan {
        PathPlan {
            path: self.path@,
            cursor: self.current_path_point as nat,
            move_target: self.move_target,
            last_rebuild: self.last_path_rebuild_time as int,
        }
    }
}

impl PathPlanner {
    pub open spec fn wf(&self) -> bool {
        self@.wf()
    }

    /// Whether the cursor names a waypoint, or there is none to name.
    pub fn is_wf(&self) -> (r: bool)
        ensures
            r == self.wf(),
    {
        self.path.len() == 0 || self.current_path_point < self.path.len()
    }

    /// A planner without a path, which will ask for one at once.
    pub fn new() -> (r: PathPlanner)
        ensures
            r.wf(),
            r@ == (PathPlan {
                path: Seq::empty(),
                cursor: 0,
                move_target: Vector3 { x: 0, y: 0, z: 0 },
                last_rebuild: -10_000,
            }),
    {
        PathPlanner {
            path: Vec::new(),
            current_path_point: 0,
            move_target: Vector3 { x: 0, y: 0, z: 0 },
            last_path_rebuild_time: -10_000,
        }
    }

    /// Whether enough time has passed since the last plan.
    pub fn due(&self, elapsed: i64) -> (r: bool)
        ensures
            r == self@.due(elapsed as int),
    {
        elapsed as i128 - self.last_path_rebuild_time as i128 >= REPLAN_INTERVAL as i128
    }

    /// What to ask the navigation mesh on this tick: nothing while the bot
    /// has no target, while the level has no mesh, or before a plan is
    /// due.
    pub fn request(
        &self,
        time: GameTime,
        navmesh: bool,
        position: Vector3,
        target: Option<Target>,
    ) -> (r: Option<PathRequest>)
        ensures
            r == self@.request(time.elapsed as int, navmesh, position, target),
    {
        match target {
            Some(t) => {
                if self.due(time.elapsed) && navmesh {
                    Some(PathRequest { from: feet(position), to: t.position })
                } else {
                    None
                }
            },
            None => None,
        }
    }

    /// Takes the answer of the navigation mesh: the path from the goal
    /// back to the start, or nothing if the mesh found no vertex near one
    /// of the two points or no way between them. Tells whether the answer
    /// became the plan.
    pub fn rebuild_path(&mut self, found: Option<Vec<Vector3>>, time: GameTime) -> (replanned: bool)
        requires
            old(self).wf(),
        ensures
            final(self).wf(),
            final(self)@ == old(self)@.rebuilt(
                PathAnswer {
                    found: match found {
                        Some(p) => Some(p@),
                        None => None,
                    },
                    elapsed: time.elapsed as int,
                },
            ),
            replanned == old(self)@.accepts(
                PathAnswer {
                    found: match found {
                        Some(p) => Some(p@),
                        None => None,
                    },
                    elapsed: time.elapsed as int,
                },
            ),
    {
        if !self.due(time.elapsed) {
            return false;
        }
        match found {
            Some(p) => {
                let mut reversed: Vec<Vector3> = Vec::new();
                let mut i: usize = p.len();
                while i > 0
                    invariant
                        i <= p@.len(),
                        reversed@.len() == p@.len() - i,
                        forall|j: int|
                            0 <= j < reversed@.len() ==> reversed@[j] == p@[p@.len() - 1 - j],
                    decreases i,
                {
                    i -= 1;
                    reversed.push(p[i]);
                }
                assert(reversed@ =~= p@.reverse());
                self.path = reversed;
                self.current_path_point = 0;
                self.last_path_rebuild_time = time.elapsed;
                true
            },
            None => false,
        }
    }

    /// Looks where the bot stands and settles where it walks to.
    pub fn advance(&mut self, position: Vector3)
        requires
            old(self).wf(),
        ensures
            final(self).wf(),
            final(self)@ == old(self)@.advanced(position),
            final(self).path == old(self).path,
            old(self).current_path_point <= final(self).current_path_point,
            final(self).current_path_point <= old(self).current_path_point + 1,
            final(self).path@.len() > 0 ==> final(self).current_path_point <= final(self).path@.len()
                - 1,
    {
        if self.current_path_point < self.path.len() {
            self.move_target = self.path[self.current_path_point];
            if self.move_target.within(&position, WAYPOINT_RADIUS) && self.current_path_point
                < self.path.len() - 1 {
                self.current_path_point += 1;
            }
        }
    }
}

} // verus!
