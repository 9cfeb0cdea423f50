use vstd::prelude::*;

use rand::rngs::StdRng;

use crate::arena::{
    valid_mirror, valid_pair, wall_at, wall_collider_spec, Collider, ColliderKind, MirrorPair,
    WallLocation, ACTOR_RADIUS, ANGULAR_SPEED, INPUT_DELTA, WALL_COUNT,
};
use crate::geometry::{abs, collision_spec, Point};
use crate::random::generate_mirror_pair;
use crate::sim::{
    apply_input, count_mirrors, count_walls, integrate, lifecycle_colliders, lifecycle_present,
    lemma_counts, lemma_mirror_contact_flags_hit, lemma_no_contact_no_response, resolve_collisions,
    respond_all, rotate, with_input, ActorState, HeldInputs,
};

verus! {

/// The whole simulation: the actor and the registry of obstacles. The registry holds
/// the four walls first and then the mirrors, if they are out.
pub struct World {
    pub actor: ActorState,
    pub colliders: Vec<Collider>,
}

/// The tick fits the machine integers: the turn, the velocity after input, and the
/// position after moving all stay within `i64`.
pub open spec fn tick_fits(a: ActorState, dt: u32) -> bool {
    &&& a.orientation + ANGULAR_SPEED * dt <= i64::MAX
    &&& abs(a.velocity.x as int) + INPUT_DELTA <= i64::MAX
    &&& abs(a.velocity.y as int) + INPUT_DELTA <= i64::MAX
    &&& abs(a.position.x as int) + (abs(a.velocity.x as int) + INPUT_DELTA) * dt <= i64::MAX
    &&& abs(a.position.y as int) + (abs(a.velocity.y as int) + INPUT_DELTA) * dt <= i64::MAX
}

fn abs_i64(v: i64) -> (r: i128)
    ensures
        r == abs(v as int),
{
    if v < 0 {
        -(v as i128)
    } else {
        v as i128
    }
}

/// Whether a tick of `dt` milliseconds keeps the actor within the machine integers.
pub fn fits_tick(actor: &ActorState, dt: u32) -> (r: bool)
    ensures
        r == tick_fits(*actor, dt),
{
    let t = dt as i128;
    let max = i64::MAX as i128;
    let vx = abs_i64(actor.velocity.x) + INPUT_DELTA as i128;
    let vy = abs_i64(actor.velocity.y) + INPUT_DELTA as i128;
    assert(0 <= vx * t <= 0x8000_0000_0000_0032 * 0x1_0000_0000) by (nonlinear_arith)
        requires
            0 <= vx <= 0x8000_0000_0000_0032,
            0 <= t <= u32::MAX,
    ;
    assert(0 <= vy * t <= 0x8000_0000_0000_0032 * 0x1_0000_0000) by (nonlinear_arith)
        requires
            0 <= vy <= 0x8000_0000_0000_0032,
            0 <= t <= u32::MAX,
    ;
    assert(0 <= ANGULAR_SPEED * t <= 5 * 0x1_0000_0000) by (nonlinear_arith)
        requires
            ANGULAR_SPEED == 5,
            0 <= t <= u32::MAX,
    ;
    let turn = ANGULAR_SPEED as i128 * t;
    actor.orientation as i128 + turn <= max && vx <= max && vy <= max
        && abs_i64(actor.position.x) + vx * t <= max && abs_i64(actor.position.y) + vy * t <= max
}

/// What one tick leaves behind, given the mirror pair to place if one is placed.
pub open spec fn ticked(
    a: ActorState,
    s: Seq<Collider>,
    held: HeldInputs,
    dt: u32,
    pair: Option<MirrorPair>,
    a2: ActorState,
    s2: Seq<Collider>,
) -> bool {
    let r = respond_all(a.circle(), a.velocity.x as int, a.velocity.y as int, s);
    let v = with_input(r.0, r.1, held);
    &&& a2.orientation == a.orientation + ANGULAR_SPEED * dt
    &&& a2.velocity.x == v.0
    &&& a2.velocity.y == v.1
    &&& a2.position.x == a.position.x + v.0 * dt
    &&& a2.position.y == a.position.y + v.1 * dt
    &&& a2.radius == a.radius
    &&& a2.mirrors_present == lifecycle_present(a.mirrors_present, r.2)
    &&& s2 == lifecycle_colliders(s, a.mirrors_present, r.2, pair)
}

impl World {
    /// The registry holds the four walls, then either no mirror or two valid ones, and
    /// the actor's flag says which.
    pub open spec fn wf(&self) -> bool {
        &&& self.colliders@.len() == WALL_COUNT + if self.actor.mirrors_present {
            2int
        } else {
            0int
        }
        &&& forall|i: int|
            0 <= i < WALL_COUNT ==> #[trigger] self.colliders@[i] == wall_collider_spec(wall_at(i))
        &&& forall|i: int|
            WALL_COUNT <= i < self.colliders@.len() ==> valid_mirror(#[trigger] self.colliders@[i])
    }

    /// The arena at startup: the four walls, the actor at rest at the center, no mirrors.
    pub fn new() -> (w: World)
        ensures
            w.wf(),
            w.actor == (ActorState {
                position: Point { x: 0, y: 0 },
                orientation: 0,
                velocity: Point { x: 0, y: 0 },
                radius: ACTOR_RADIUS,
                mirrors_present: false,
            }),
    {
        let mut colliders: Vec<Collider> = Vec::new();
        colliders.push(WallLocation::Left.collider());
        colliders.push(WallLocation::Right.collider());
        colliders.push(WallLocation::Bottom.collider());
        colliders.push(WallLocation::Top.collider());
        let actor = ActorState {
            position: Point { x: 0, y: 0 },
            orientation: 0,
            velocity: Point { x: 0, y: 0 },
            radius: ACTOR_RADIUS,
            mirrors_present: false,
        };
        World { actor, colliders }
    }

    /// Number of mirrors in the registry.
    pub fn mirror_count(&self) -> (n: usize)
        ensures
            n == count_mirrors(self.colliders@),
    {
        let mut n: usize = 0;
        let mut i: usize = 0;
        while i < self.colliders.len()
            invariant
                0 <= i <= self.colliders.len(),
                n == count_mirrors(self.colliders@.take(i as int)),
                n <= i,
            decreases self.colliders.len() - i,
        {
            assert(self.colliders@.take(i + 1).drop_last() == self.colliders@.take(i as int));
            if self.colliders[i].kind == ColliderKind::Mirror {
                n = n + 1;
            }
            i = i + 1;
        }
        assert(self.colliders@.take(self.colliders.len() as int) == self.colliders@);
        n
    }

    /// The lifecycle step, run once per tick after the collisions: a struck pair is
    /// removed whole, an absent pair is placed from `pair`, and otherwise nothing changes.
    pub fn update_mirrors(&mut self, mirror_hit: bool, pair: Option<MirrorPair>)
        requires
            old(self).wf(),
            !old(self).actor.mirrors_present ==> pair is Some && valid_pair(pair->Some_0),
        ensures
            final(self).wf(),
            final(self).colliders@ == lifecycle_colliders(
                old(self).colliders@,
                old(self).actor.mirrors_present,
                mirror_hit,
                pair,
            ),
            final(self).actor.mirrors_present == lifecycle_present(
                old(self).actor.mirrors_present,
                mirror_hit,
            ),
            final(self).actor.position == old(self).actor.position,
            final(self).actor.orientation == old(self).actor.orientation,
            final(self).actor.velocity == old(self).actor.velocity,
            final(self).actor.radius == old(self).actor.radius,
    {
        if self.actor.mirrors_present {
            if mirror_hit {
                self.colliders.truncate(WALL_COUNT);
                self.actor.mirrors_present = false;
            }
        } else {
            let p = pair.unwrap();
            self.colliders.push(p.first.collider());
            self.colliders.push(p.second.collider());
            self.actor.mirrors_present = true;
        }
    }

    /// One tick in the fixed order: turn, detect and answer collisions, run the mirror
    /// lifecycle, add the held directions, move. `pair` places the mirrors when they
    /// are absent.
    pub fn step(&mut self, held: HeldInputs, dt: u32, pair: Option<MirrorPair>)
        requires
            old(self).wf(),
            tick_fits(old(self).actor, dt),
            !old(self).actor.mirrors_present ==> pair is Some && valid_pair(pair->Some_0),
        ensures
            final(self).wf(),
            ticked(old(self).actor, old(self).colliders@, held, dt, pair, final(self).actor,
                final(self).colliders@),
    {
        let ghost a0 = self.actor;
        rotate(&mut self.actor, dt);
        let hit = resolve_collisions(&mut self.actor, &self.colliders);
        self.update_mirrors(hit, pair);
        apply_input(&mut self.actor, held);
        proof {
            lemma_move_fits(
                a0.position.x as int,
                a0.velocity.x as int,
                self.actor.velocity.x as int,
                dt as int,
            );
            lemma_move_fits(
                a0.position.y as int,
                a0.velocity.y as int,
                self.actor.velocity.y as int,
                dt as int,
            );
        }
        integrate(&mut self.actor, dt);
    }

    /// One tick as `step` runs it, with the mirror placements drawn from `rng` when the
    /// pair is absent. Whatever is drawn, the new mirrors are valid and follow the walls.
    pub fn tick(&mut self, held: HeldInputs, dt: u32, rng: &mut StdRng)
        requires
            old(self).wf(),
            tick_fits(old(self).actor, dt),
        ensures
            final(self).wf(),
            old(self).actor.mirrors_present ==> ticked(
                old(self).actor,
                old(self).colliders@,
                held,
                dt,
                None,
                final(self).actor,
                final(self).colliders@,
            ),
            !old(self).actor.mirrors_present ==> exists|pair: MirrorPair|
                valid_pair(pair) && ticked(
                    old(self).actor,
                    old(self).colliders@,
                    held,
                    dt,
                    Some(pair),
                    final(self).actor,
                    final(self).colliders@,
                ),
    {
        if self.actor.mirrors_present {
            self.step(held, dt, None);
        } else {
            let pair = generate_mirror_pair(rng);
            self.step(held, dt, Some(pair));
        }
    }
}

/// A velocity no larger than the bound that the tick allows keeps the move in range.
proof fn lemma_move_fits(p: int, v0: int, v: int, dt: int)
    requires
        0 <= dt,
        abs(v) <= abs(v0) + INPUT_DELTA,
        abs(p) + (abs(v0) + INPUT_DELTA) * dt <= i64::MAX,
    ensures
        i64::MIN <= p + v * dt <= i64::MAX,
{
    assert(abs(v) * dt <= (abs(v0) + INPUT_DELTA) * dt) by (nonlinear_arith)
        requires
            0 <= dt,
            abs(v) <= abs(v0) + INPUT_DELTA,
    ;
    assert(-(abs(v) * dt) <= v * dt <= abs(v) * dt) by (nonlinear_arith)
        requires
            0 <= dt,
    ;
}

} // verus!

verus! {

/// In every well-formed world there are exactly four walls and either no mirror or two,
/// never one; the actor's flag is set exactly when there are two.
pub proof fn lemma_mirrors_come_in_pairs(w: World)
    requires
        w.wf(),
    ensures
        count_walls(w.colliders@) == WALL_COUNT,
        count_mirrors(w.colliders@) == 0 || count_mirrors(w.colliders@) == 2,
        w.actor.mirrors_present <==> count_mirrors(w.colliders@) == 2,
{
    let s = w.colliders@;
    assert forall|i: int| 0 <= i < WALL_COUNT implies (#[trigger] s[i]).kind
        == ColliderKind::Wall by {
        assert(s[i] == wall_collider_spec(wall_at(i)));
    }
    assert forall|i: int| WALL_COUNT <= i < s.len() implies (#[trigger] s[i]).kind
        == ColliderKind::Mirror by {
        assert(valid_mirror(s[i]));
    }
    lemma_counts(s, WALL_COUNT as int);
}

/// Touching either mirror during a tick removes both mirrors in that same tick and
/// clears the actor's flag, whatever placements were on offer.
pub proof fn lemma_mirror_hit_removes_pair(w: World, i: int, pair: Option<MirrorPair>)
    requires
        w.wf(),
        WALL_COUNT <= i < w.colliders@.len(),
        collision_spec(w.actor.circle(), w.colliders@[i].aabb()) is Some,
    ensures
        ({
            let r = respond_all(
                w.actor.circle(),
                w.actor.velocity.x as int,
                w.actor.velocity.y as int,
                w.colliders@,
            );
            let s2 = lifecycle_colliders(w.colliders@, w.actor.mirrors_present, r.2, pair);
            &&& r.2
            &&& count_mirrors(s2) == 0
            &&& count_walls(s2) == WALL_COUNT
            &&& !lifecycle_present(w.actor.mirrors_present, r.2)
        }),
{
    let s = w.colliders@;
    assert(valid_mirror(s[i]));
    lemma_mirror_contact_flags_hit(
        w.actor.circle(),
        w.actor.velocity.x as int,
        w.actor.velocity.y as int,
        s,
        i,
    );
    let t = s.take(WALL_COUNT as int);
    assert forall|j: int| 0 <= j < WALL_COUNT implies (#[trigger] t[j]).kind
        == ColliderKind::Wall by {
        assert(t[j] == s[j]);
        assert(s[j] == wall_collider_spec(wall_at(j)));
    }
    lemma_counts(t, WALL_COUNT as int);
}

/// A tick with no direction held and no collider touched turns the actor by exactly
/// its angular speed times the tick length, never backwards, and keeps its velocity.
pub proof fn lemma_idle_tick(
    a: ActorState,
    s: Seq<Collider>,
    dt: u32,
    pair: Option<MirrorPair>,
    a2: ActorState,
    s2: Seq<Collider>,
)
    requires
        forall|i: int|
            0 <= i < s.len() ==> collision_spec(a.circle(), (#[trigger] s[i]).aabb()) is None,
        ticked(
            a,
            s,
            HeldInputs { left: false, right: false, up: false, down: false },
            dt,
            pair,
            a2,
            s2,
        ),
    ensures
        a2.orientation == a.orientation + ANGULAR_SPEED * dt,
        a2.orientation >= a.orientation,
        a2.velocity == a.velocity,
{
    lemma_no_contact_no_response(a.circle(), a.velocity.x as int, a.velocity.y as int, s);
}

} // verus!
