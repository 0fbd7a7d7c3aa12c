//! Target acquisition.
//!
//! A bot keeps the target it has for as long as that target is listed
//! alive. Only when it is not does the bot look for another: the nearest
//! candidate, itself excepted, that stands inside its view frustum with no
//! static geometry between the two.

use vstd::prelude::*;
use crate::handle::Handle;
use crate::math::Vector3;

verus! {

/// Whom a bot is after, and where that entity was last seen.
#[derive(Copy, Clone, PartialEq, Eq, Structural, Debug)]
pub struct Target {
    pub position: Vector3,
    pub handle: Handle,
}

impl Default for Target {
    /// Nobody, at the origin.
    fn default() -> (r: Target)
        ensures
            r == (Target { position: Vector3 { x: 0, y: 0, z: 0 }, handle: Handle::spec_none() }),
    {
        Target { position: Vector3 { x: 0, y: 0, z: 0 }, handle: Handle::none() }
    }
}

/// An entity that bots may go after, as the level lists it once per
/// frame.
#[derive(Copy, Clone, PartialEq, Eq, Structural, Debug)]
pub struct TargetDescriptor {
    pub handle: Handle,
    pub health: i64,
    pub position: Vector3,
}

/// What a ray from a candidate to the bot has met.
#[derive(Copy, Clone, PartialEq, Eq, Structural, Debug)]
pub enum RayHit {
    /// Level geometry: a triangle mesh. It blocks the view.
    StaticGeometry,
    /// The collider of a body, the bot's own or another's. It never
    /// blocks the view.
    Body { body: Handle },
}

/// How one bot sees one candidate on this tick.
#[derive(Clone, Debug)]
pub struct Sighting {
    /// Whether the candidate stands inside the bot's view frustum.
    pub in_frustum: bool,
    /// Everything that the ray from the candidate to the bot has met.
    pub hits: Vec<RayHit>,
}

/// Whether static geometry is among the hits.
pub open spec fn occluded(hits: Seq<RayHit>) -> bool {
    exists|i: int| 0 <= i < hits.len() && hits[i] is StaticGeometry
}

impl Sighting {
    pub open spec fn spec_is_occluded(&self) -> bool {
        occluded(self.hits@)
    }

    /// Whether the bot's view of the candidate is blocked.
    pub fn is_occluded(&self) -> (r: bool)
        ensures
            r == self.spec_is_occluded(),
    {
        let mut i: usize = 0;
        while i < self.hits.len()
            invariant
                i <= self.hits@.len(),
                forall|j: int| 0 <= j < i ==> !(self.hits@[j] is StaticGeometry),
            decreases self.hits@.len() - i,
        {
            match self.hits[i] {
                RayHit::StaticGeometry => {
                    return true;
                },
                RayHit::Body { .. } => {},
            }
            i += 1;
        }
        false
    }

    pub open spec fn spec_is_visible(&self) -> bool {
        self.in_frustum && !occluded(self.hits@)
    }

    /// Whether the bot sees the candidate: inside the frustum, with a
    /// clear line of sight.
    pub fn is_visible(&self) -> (r: bool)
        ensures
            r == self.spec_is_visible(),
    {
        self.in_frustum && !self.is_occluded()
    }
}

/// Whether a listed entity is the current target, alive, and not the bot
/// itself.
pub open spec fn confirms(current: Target, self_handle: Handle, d: TargetDescriptor) -> bool {
    d.handle != self_handle && d.handle == current.handle && d.health > 0
}

/// The first entry at or after `k` that confirms the current target.
pub open spec fn first_confirming(
    current: Target,
    self_handle: Handle,
    targets: Seq<TargetDescriptor>,
    k: int,
) -> Option<int>
    decreases targets.len() - k,
{
    if k < 0 || k >= targets.len() {
        None
    } else if confirms(current, self_handle, targets[k]) {
        Some(k)
    } else {
        first_confirming(current, self_handle, targets, k + 1)
    }
}

/// Whether candidate `i` may become a new target: it is not the bot, and
/// the bot sees it. A candidate without a sighting is not seen.
pub open spec fn qualifies(
    self_handle: Handle,
    targets: Seq<TargetDescriptor>,
    sightings: Seq<Sighting>,
    i: int,
) -> bool {
    &&& 0 <= i < targets.len()
    &&& i < sightings.len()
    &&& targets[i].handle != self_handle
    &&& sightings[i].spec_is_visible()
}

/// The nearest qualifying candidate among the first `k`; of several at
/// the same distance, the first.
pub open spec fn nearest(
    self_handle: Handle,
    position: Vector3,
    targets: Seq<TargetDescriptor>,
    sightings: Seq<Sighting>,
    k: int,
) -> Option<int>
    decreases k,
{
    if k <= 0 {
        None
    } else {
        let before = nearest(self_handle, position, targets, sightings, k - 1);
        if qualifies(self_handle, targets, sightings, k - 1) && (before matches Some(b)
            ==> position.spec_sqr_distance(targets[k - 1].position) < position.spec_sqr_distance(
            targets[b].position,
        )) {
            Some(k - 1)
        } else {
            before
        }
    }
}

/// Whether the bot keeps the target it has.
pub open spec fn keeps(
    current: Option<Target>,
    self_handle: Handle,
    targets: Seq<TargetDescriptor>,
) -> bool {
    current matches Some(c) && first_confirming(c, self_handle, targets, 0) is Some
}

/// The target of a bot after it has looked around.
pub open spec fn selected(
    current: Option<Target>,
    self_handle: Handle,
    position: Vector3,
    targets: Seq<TargetDescriptor>,
    sightings: Seq<Sighting>,
) -> Option<Target> {
    if keeps(current, self_handle, targets) {
        let c = current->Some_0;
        let i = first_confirming(c, self_handle, targets, 0)->Some_0;
        Some(Target { position: targets[i].position, handle: c.handle })
    } else {
        match nearest(self_handle, position, targets, sightings, targets.len() as int) {
            Some(b) => Some(Target { position: targets[b].position, handle: targets[b].handle }),
            None => None,
        }
    }
}

/// `first_confirming` finds the least confirming entry at or after `k`.
pub proof fn lemma_first_confirming_is_least(
    current: Target,
    self_handle: Handle,
    targets: Seq<TargetDescriptor>,
    k: int,
)
    requires
        0 <= k,
    ensures
        match first_confirming(current, self_handle, targets, k) {
            Some(i) => k <= i < targets.len() && confirms(current, self_handle, targets[i])
                && forall|j: int| k <= j < i ==> !confirms(current, self_handle, targets[j]),
            None => forall|j: int|
                k <= j < targets.len() ==> !confirms(current, self_handle, targets[j]),
        },
    decreases targets.len() - k,
{
    if k < targets.len() && !confirms(current, self_handle, targets[k]) {
        lemma_first_confirming_is_least(current, self_handle, targets, k + 1);
    }
}

/// `nearest` finds a qualifying candidate that none of the first `k` is
/// nearer than, and that comes first among those equally near; it finds
/// none only if none of them qualifies.
pub proof fn lemma_nearest_is_nearest(
    self_handle: Handle,
    position: Vector3,
    targets: Seq<TargetDescriptor>,
    sightings: Seq<Sighting>,
    k: int,
)
    requires
        0 <= k <= targets.len(),
    ensures
        match nearest(self_handle, position, targets, sightings, k) {
            Some(b) => {
                &&& 0 <= b < k
                &&& qualifies(self_handle, targets, sightings, b)
                &&& forall|j: int|
                    0 <= j < k && qualifies(self_handle, targets, sightings, j)
                        ==> position.spec_sqr_distance(targets[b].position)
                        <= position.spec_sqr_distance(#[trigger] targets[j].position)
                &&& forall|j: int|
                    0 <= j < b && qualifies(self_handle, targets, sightings, j)
                        ==> position.spec_sqr_distance(targets[b].position)
                        < position.spec_sqr_distance(#[trigger] targets[j].position)
            },
            None => forall|j: int| 0 <= j < k ==> !qualifies(self_handle, targets, sightings, j),
        },
    decreases k,
{
    if k > 0 {
        lemma_nearest_is_nearest(self_handle, position, targets, sightings, k - 1);
    }
}

/// The sticky-target law. A bot whose target is still listed alive keeps
/// that target, wherever the other candidates stand and however near
/// they are; only the remembered position is refreshed.
pub proof fn lemma_target_is_sticky(
    current: Target,
    self_handle: Handle,
    position: Vector3,
    targets: Seq<TargetDescriptor>,
    sightings: Seq<Sighting>,
    i: int,
)
    requires
        0 <= i < targets.len(),
        confirms(current, self_handle, targets[i]),
    ensures
        selected(Some(current), self_handle, position, targets, sightings) matches Some(t)
            && t.handle == current.handle,
{
    lemma_first_confirming_is_least(current, self_handle, targets, 0);
}

/// A bot that looks for a new target never picks a candidate that stands
/// outside its frustum, nor one behind static geometry, nor itself,
/// however near that candidate is.
pub proof fn lemma_new_target_is_seen(
    current: Option<Target>,
    self_handle: Handle,
    position: Vector3,
    targets: Seq<TargetDescriptor>,
    sightings: Seq<Sighting>,
)
    requires
        !keeps(current, self_handle, targets),
    ensures
        match nearest(self_handle, position, targets, sightings, targets.len() as int) {
            Some(b) => {
                &&& selected(current, self_handle, position, targets, sightings) == Some(
                    Target { position: targets[b].position, handle: targets[b].handle },
                )
                &&& 0 <= b < targets.len()
                &&& b < sightings.len()
                &&& sightings[b].in_frustum
                &&& !occluded(sightings[b].hits@)
                &&& targets[b].handle != self_handle
            },
            None => selected(current, self_handle, position, targets, sightings) is None,
        },
{
    lemma_nearest_is_nearest(self_handle, position, targets, sightings, targets.len() as int);
}

/// Looks around and decides whom to go after.
pub fn select_target(
    current: Option<Target>,
    self_handle: Handle,
    position: Vector3,
    targets: &Vec<TargetDescriptor>,
    sightings: &Vec<Sighting>,
) -> (r: Option<Target>)
    ensures
        r == selected(current, self_handle, position, targets@, sightings@),
{
    if let Some(c) = current {
        let mut i: usize = 0;
        while i < targets.len()
            invariant
                i <= targets@.len(),
                current == Some(c),
                first_confirming(c, self_handle, targets@, 0) == first_confirming(
                    c,
                    self_handle,
                    targets@,
                    i as int,
                ),
            decreases targets@.len() - i,
        {
            let d: TargetDescriptor = targets[i];
            if d.handle != self_handle && d.handle == c.handle && d.health > 0 {
                assert(confirms(c, self_handle, targets@[i as int]));
                assert(first_confirming(c, self_handle, targets@, i as int) == Some(i as int));
                return Some(Target { position: d.position, handle: c.handle });
            }
            i += 1;
        }
    }
    let mut best: Option<usize> = None;
    let mut closest: u128 = 0;
    let mut k: usize = 0;
    while k < targets.len()
        invariant
            k <= targets@.len(),
            best is Some == nearest(self_handle, position, targets@, sightings@, k as int) is Some,
            best matches Some(b) ==> b < k && nearest(
                self_handle,
                position,
                targets@,
                sightings@,
                k as int,
            ) == Some(b as int) && closest == position.spec_sqr_distance(targets@[b as int].position),
        decreases targets@.len() - k,
    {
        let d: TargetDescriptor = targets[k];
        if d.handle != self_handle && k < sightings.len() && sightings[k].is_visible() {
            let distance: u128 = position.sqr_distance(&d.position);
            if best.is_none() || distance < closest {
                best = Some(k);
                closest = distance;
            }
        }
        k += 1;
    }
    match best {
        Some(b) => Some(Target { position: targets[b].position, handle: targets[b].handle }),
        None => None,
    }
}

} // verus!
