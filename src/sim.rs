use vstd::prelude::*;

use crate::arena::{
    mirror_collider_spec, ColliderKind, Collider, MirrorPair, ANGULAR_SPEED, INPUT_DELTA,
    WALL_COUNT,
};
use crate::geometry::{abs, ball_collision, collision_spec, Circle, Collision, Point};

verus! {

/// The moving circle: where it is, how far it has turned, how fast it moves, and
/// whether the mirror pair is out.
#[derive(Clone, Copy, Debug, PartialEq, Eq, Structural)]
pub struct ActorState {
    pub position: Point,
    pub orientation: i64,
    pub velocity: Point,
    pub radius: i64,
    pub mirrors_present: bool,
}

/// The directions held down during one tick.
#[derive(Clone, Copy, Debug, PartialEq, Eq, Structural)]
pub struct HeldInputs {
    pub left: bool,
    pub right: bool,
    pub up: bool,
    pub down: bool,
}

impl ActorState {
    pub open spec fn circle(self) -> Circle {
        Circle { center: self.position, radius: self.radius }
    }
}

/// Velocity after one collision on `side`: a side hit turns the horizontal velocity
/// round, a top or bottom hit the vertical one.
pub open spec fn reflect(vx: int, vy: int, side: Collision) -> (int, int) {
    match side {
        Collision::Left | Collision::Right => (-vx, vy),
        Collision::Top | Collision::Bottom => (vx, -vy),
    }
}

/// The response to one collider: the velocity and the mirror-hit flag after it.
pub open spec fn respond_one(ball: Circle, vx: int, vy: int, hit: bool, c: Collider) -> (
    int,
    int,
    bool,
) {
    match collision_spec(ball, c.aabb()) {
        None => (vx, vy, hit),
        Some(side) => {
            let v = reflect(vx, vy, side);
            (v.0, v.1, hit || c.kind == ColliderKind::Mirror)
        },
    }
}

/// The responses to every collider of `s` in order, starting from velocity `(vx, vy)`
/// and no mirror hit.
pub open spec fn respond_all(ball: Circle, vx: int, vy: int, s: Seq<Collider>) -> (
    int,
    int,
    bool,
)
    decreases s.len(),
{
    if s.len() == 0 {
        (vx, vy, false)
    } else {
        let prev = respond_all(ball, vx, vy, s.drop_last());
        respond_one(ball, prev.0, prev.1, prev.2, s.last())
    }
}

/// Velocity after the held directions are added in.
pub open spec fn with_input(vx: int, vy: int, held: HeldInputs) -> (int, int) {
    (
        vx - (if held.left { INPUT_DELTA as int } else { 0 }) + (if held.right {
            INPUT_DELTA as int
        } else {
            0
        }),
        vy - (if held.down { INPUT_DELTA as int } else { 0 }) + (if held.up {
            INPUT_DELTA as int
        } else {
            0
        }),
    )
}

/// The registry after the lifecycle step: a struck pair is removed, an absent pair is
/// placed, and otherwise nothing changes.
pub open spec fn lifecycle_colliders(
    s: Seq<Collider>,
    present: bool,
    hit: bool,
    pair: Option<MirrorPair>,
) -> Seq<Collider> {
    if present && hit {
        s.take(WALL_COUNT as int)
    } else if !present {
        s.push(mirror_collider_spec(pair->Some_0.first)).push(
            mirror_collider_spec(pair->Some_0.second),
        )
    } else {
        s
    }
}

pub open spec fn lifecycle_present(present: bool, hit: bool) -> bool {
    !(present && hit)
}

/// Number of mirrors in a registry.
pub open spec fn count_mirrors(s: Seq<Collider>) -> nat
    decreases s.len(),
{
    if s.len() == 0 {
        0
    } else {
        count_mirrors(s.drop_last()) + if s.last().kind == ColliderKind::Mirror {
            1nat
        } else {
            0nat
        }
    }
}

/// Number of walls in a registry.
pub open spec fn count_walls(s: Seq<Collider>) -> nat
    decreases s.len(),
{
    if s.len() == 0 {
        0
    } else {
        count_walls(s.drop_last()) + if s.last().kind == ColliderKind::Wall {
            1nat
        } else {
            0nat
        }
    }
}

/// Turns the actor by its angular speed over `dt` milliseconds.
pub fn rotate(actor: &mut ActorState, dt: u32)
    requires
        old(actor).orientation + ANGULAR_SPEED * dt <= i64::MAX,
    ensures
        final(actor).orientation == old(actor).orientation + ANGULAR_SPEED * dt,
        final(actor).position == old(actor).position,
        final(actor).velocity == old(actor).velocity,
        final(actor).radius == old(actor).radius,
        final(actor).mirrors_present == old(actor).mirrors_present,
{
    actor.orientation = actor.orientation + ANGULAR_SPEED * dt as i64;
}

/// Tests the actor against every collider and reflects its velocity for each one hit,
/// in order. Returns whether a mirror was among them.
pub fn resolve_collisions(actor: &mut ActorState, colliders: &Vec<Collider>) -> (mirror_hit: bool)
    requires
        old(actor).velocity.x > i64::MIN,
        old(actor).velocity.y > i64::MIN,
    ensures
        ({
            let r = respond_all(
                old(actor).circle(),
                old(actor).velocity.x as int,
                old(actor).velocity.y as int,
                colliders@,
            );
            &&& final(actor).velocity.x == r.0
            &&& final(actor).velocity.y == r.1
            &&& mirror_hit == r.2
        }),
        abs(final(actor).velocity.x as int) == abs(old(actor).velocity.x as int),
        abs(final(actor).velocity.y as int) == abs(old(actor).velocity.y as int),
        final(actor).position == old(actor).position,
        final(actor).orientation == old(actor).orientation,
        final(actor).radius == old(actor).radius,
        final(actor).mirrors_present == old(actor).mirrors_present,
{
    let ball = Circle { center: actor.position, radius: actor.radius };
    let mut mirror_hit = false;
    let mut i: usize = 0;
    while i < colliders.len()
        invariant
            0 <= i <= colliders.len(),
            ball == old(actor).circle(),
            abs(actor.velocity.x as int) == abs(old(actor).velocity.x as int),
            abs(actor.velocity.y as int) == abs(old(actor).velocity.y as int),
            old(actor).velocity.x > i64::MIN,
            old(actor).velocity.y > i64::MIN,
            ({
                let r = respond_all(
                    ball,
                    old(actor).velocity.x as int,
                    old(actor).velocity.y as int,
                    colliders@.take(i as int),
                );
                actor.velocity.x == r.0 && actor.velocity.y == r.1 && mirror_hit == r.2
            }),
            actor.position == old(actor).position,
            actor.orientation == old(actor).orientation,
            actor.radius == old(actor).radius,
            actor.mirrors_present == old(actor).mirrors_present,
        decreases colliders.len() - i,
    {
        let c = colliders[i];
        assert(colliders@.take(i + 1).drop_last() == colliders@.take(i as int));
        if let Some(side) = ball_collision(ball, c.bounding_box()) {
            if c.kind == ColliderKind::Mirror {
                mirror_hit = true;
            }
            match side {
                Collision::Left | Collision::Right => {
                    actor.velocity.x = -actor.velocity.x;
                },
                Collision::Top | Collision::Bottom => {
                    actor.velocity.y = -actor.velocity.y;
                },
            }
        }
        i = i + 1;
    }
    assert(colliders@.take(colliders.len() as int) == colliders@);
    mirror_hit
}

/// Adds the velocity change of each held direction. The velocity is not bounded.
pub fn apply_input(actor: &mut ActorState, held: HeldInputs)
    requires
        abs(old(actor).velocity.x as int) + INPUT_DELTA <= i64::MAX,
        abs(old(actor).velocity.y as int) + INPUT_DELTA <= i64::MAX,
    ensures
        ({
            let v = with_input(old(actor).velocity.x as int, old(actor).velocity.y as int, held);
            final(actor).velocity.x == v.0 && final(actor).velocity.y == v.1
        }),
        final(actor).position == old(actor).position,
        final(actor).orientation == old(actor).orientation,
        final(actor).radius == old(actor).radius,
        final(actor).mirrors_present == old(actor).mirrors_present,
{
    if held.left {
        actor.velocity.x = actor.velocity.x - INPUT_DELTA;
    }
    if held.right {
        actor.velocity.x = actor.velocity.x + INPUT_DELTA;
    }
    if held.down {
        actor.velocity.y = actor.velocity.y - INPUT_DELTA;
    }
    if held.up {
        actor.velocity.y = actor.velocity.y + INPUT_DELTA;
    }
}

/// Moves the actor by its velocity over `dt` milliseconds.
pub fn integrate(actor: &mut ActorState, dt: u32)
    requires
        i64::MIN <= old(actor).position.x + old(actor).velocity.x * dt <= i64::MAX,
        i64::MIN <= old(actor).position.y + old(actor).velocity.y * dt <= i64::MAX,
    ensures
        final(actor).position.x == old(actor).position.x + old(actor).velocity.x * dt,
        final(actor).position.y == old(actor).position.y + old(actor).velocity.y * dt,
        final(actor).velocity == old(actor).velocity,
        final(actor).orientation == old(actor).orientation,
        final(actor).radius == old(actor).radius,
        final(actor).mirrors_present == old(actor).mirrors_present,
{
    let t = dt as i128;
    let x = actor.position.x as i128 + actor.velocity.x as i128 * t;
    let y = actor.position.y as i128 + actor.velocity.y as i128 * t;
    assert(-0x8000_0000_0000_0000 * 0x1_0000_0000 <= actor.velocity.x * t
        <= 0x7fff_ffff_ffff_ffff * 0x1_0000_0000) by (nonlinear_arith)
        requires
            i64::MIN <= actor.velocity.x <= i64::MAX,
            0 <= t <= u32::MAX,
    ;
    assert(-0x8000_0000_0000_0000 * 0x1_0000_0000 <= actor.velocity.y * t
        <= 0x7fff_ffff_ffff_ffff * 0x1_0000_0000) by (nonlinear_arith)
        requires
            i64::MIN <= actor.velocity.y <= i64::MAX,
            0 <= t <= u32::MAX,
    ;
    actor.position.x = x as i64;
    actor.position.y = y as i64;
}

} // verus!

verus! {

/// A collision with a wall turns exactly the velocity axis named by the side round and
/// leaves the mirror-hit flag as it was.
pub proof fn lemma_wall_hit_reflects_one_axis(
    ball: Circle,
    vx: int,
    vy: int,
    hit: bool,
    c: Collider,
)
    requires
        c.kind == ColliderKind::Wall,
        collision_spec(ball, c.aabb()) is Some,
    ensures
        ({
            let r = respond_one(ball, vx, vy, hit, c);
            let side = collision_spec(ball, c.aabb())->Some_0;
            &&& r.2 == hit
            &&& (side == Collision::Left || side == Collision::Right) ==> r.0 == -vx && r.1 == vy
            &&& (side == Collision::Top || side == Collision::Bottom) ==> r.0 == vx && r.1 == -vy
        }),
{
}

/// With no collider touched, the responses leave the velocity alone and report no
/// mirror hit.
pub proof fn lemma_no_contact_no_response(ball: Circle, vx: int, vy: int, s: Seq<Collider>)
    requires
        forall|i: int| 0 <= i < s.len() ==> collision_spec(ball, (#[trigger] s[i]).aabb()) is None,
    ensures
        respond_all(ball, vx, vy, s) == (vx, vy, false),
    decreases s.len(),
{
    if s.len() > 0 {
        assert forall|i: int| 0 <= i < s.drop_last().len() implies collision_spec(
            ball,
            (#[trigger] s.drop_last()[i]).aabb(),
        ) is None by {
            assert(s.drop_last()[i] == s[i]);
        }
        lemma_no_contact_no_response(ball, vx, vy, s.drop_last());
        assert(collision_spec(ball, s[s.len() - 1].aabb()) is None);
    }
}

/// A touched mirror anywhere in the registry raises the mirror-hit flag.
pub proof fn lemma_mirror_contact_flags_hit(
    ball: Circle,
    vx: int,
    vy: int,
    s: Seq<Collider>,
    i: int,
)
    requires
        0 <= i < s.len(),
        s[i].kind == ColliderKind::Mirror,
        collision_spec(ball, s[i].aabb()) is Some,
    ensures
        respond_all(ball, vx, vy, s).2,
    decreases s.len(),
{
    if i < s.len() - 1 {
        assert(s.drop_last()[i] == s[i]);
        lemma_mirror_contact_flags_hit(ball, vx, vy, s.drop_last(), i);
    }
}

/// A registry of `k` walls followed only by mirrors holds `k` walls and the rest
/// mirrors.
pub proof fn lemma_counts(s: Seq<Collider>, k: int)
    requires
        0 <= k <= s.len(),
        forall|i: int| 0 <= i < k ==> (#[trigger] s[i]).kind == ColliderKind::Wall,
        forall|i: int| k <= i < s.len() ==> (#[trigger] s[i]).kind == ColliderKind::Mirror,
    ensures
        count_walls(s) == k,
        count_mirrors(s) == s.len() - k,
    decreases s.len(),
{
    if s.len() > 0 {
        let t = s.drop_last();
        if k == s.len() {
            assert forall|i: int| 0 <= i < k - 1 implies (#[trigger] t[i]).kind
                == ColliderKind::Wall by {
                assert(t[i] == s[i]);
            }
            lemma_counts(t, k - 1);
        } else {
            assert forall|i: int| 0 <= i < k implies (#[trigger] t[i]).kind
                == ColliderKind::Wall by {
                assert(t[i] == s[i]);
            }
            assert forall|i: int| k <= i < t.len() implies (#[trigger] t[i]).kind
                == ColliderKind::Mirror by {
                assert(t[i] == s[i]);
            }
            lemma_counts(t, k);
        }
    }
}

} // verus!
