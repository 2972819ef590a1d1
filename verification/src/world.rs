//! The world: the windmills, the projectiles in flight and the score, and
//! what a tick and the player's input do to them.

use rand::Rng;
use vstd::prelude::*;
use crate::collision::{
    advance_bullet, after_bullets, bullets_in_bounds, bullets_wf, ids_below, stage_of, stage_wf,
    windmill_below, windmill_is_below, windmills_wf, Bullet, BulletEntry, Effect, Scores,
    WindmillEntry,
};
use crate::geometry::{is_direction, Vec3};
use crate::laws::{all_succeed, lemma_tick, lemma_tick_keeps_ids, notices_due, win_notices};
use crate::input::{decide_fire, decision, KeyboardInput, MouseButtonInput, Pointer};
use crate::windmill::{Entity, Windmill};

verus! {

/// Number of windmills that a fresh world is set up with.
pub const WINDMILL_COUNT: usize = 10;

/// Windmills are set up with x and z from `-SPREAD` up to, but not
/// including, `SPREAD`.
pub const SPREAD: i64 = 15_000_000;

/// Height at which the rod of a windmill stands.
pub const ROD_HEIGHT: i64 = 2_000_000;

/// The windmills, the projectiles in flight, the score, and the identity
/// that the next new entity gets.
#[derive(Clone, Debug)]
pub struct World {
    pub windmills: Vec<WindmillEntry>,
    pub bullets: Vec<BulletEntry>,
    pub scores: Scores,
    pub next_entity: u64,
}

/// Where the player looks from, and in which direction.
#[derive(Clone, Copy, Debug, PartialEq, Eq, Structural)]
pub struct Camera {
    pub position: Vec3,
    /// The camera's orientation applied to its forward axis.
    pub forward: Vec3,
}

/// What one tick's input led to.
#[derive(Clone, Copy, Debug, PartialEq, Eq, Structural)]
pub struct FireOutcome {
    /// What becomes of the pointer.
    pub pointer: Pointer,
    /// The projectile that was spawned, if one was.
    pub spawned: Option<BulletEntry>,
}

/// The projectile that a shot through `camera` spawns under identity `id`.
pub open spec fn shot(id: u64, camera: Camera) -> BulletEntry {
    BulletEntry { id: Entity(id), position: camera.position, bullet: Bullet { dir: camera.forward } }
}

/// An intact windmill at (`x`, `ROD_HEIGHT`, `z`) whose fins have the
/// identities `first`, `first + 1` and `first + 2` and whose rod has
/// `first + 3`.
pub open spec fn is_fresh_windmill(m: WindmillEntry, first: int, x: i64, z: i64) -> bool {
    &&& m.id == Entity((first + 3) as u64)
    &&& m.position == (Vec3 { x, y: ROD_HEIGHT, z })
    &&& m.windmill.state == 0
    &&& m.windmill.fins[0] == Some(Entity(first as u64))
    &&& m.windmill.fins[1] == Some(Entity((first + 1) as u64))
    &&& m.windmill.fins[2] == Some(Entity((first + 2) as u64))
}

/// The random number generator of the `rand` crate that belongs to the
/// running thread. Nothing is known of what is inside.
#[verifier::external_type_specification]
#[verifier::external_body]
pub struct ExThreadRng(rand::rngs::ThreadRng);

/// Calls `rand::thread_rng`, which hands out the generator of the running
/// thread. Nothing is claimed of it.
#[verifier::external_body]
fn thread_generator() -> (rng: rand::rngs::ThreadRng) {
    rand::thread_rng()
}

/// Calls `rand::Rng::gen_range` with the range from `low` up to, but not
/// including, `high`. The contract claims of it only that the value lies in
/// that range; which value comes is left open. An empty range, on which the
/// call panics, is kept out.
#[verifier::external_body]
fn random_in(rng: &mut rand::rngs::ThreadRng, low: i64, high: i64) -> (r: i64)
    requires
        low < high,
    ensures
        low <= r < high,
{
    rng.gen_range(low..high)
}

impl World {
    /// Windmills and projectiles are well formed, the score can still count
    /// every windmill, and every identity in use is below the one that the
    /// next new entity gets.
    pub open spec fn wf(&self) -> bool {
        &&& windmills_wf(self.windmills@)
        &&& bullets_wf(self.bullets@)
        &&& self.scores.score + self.windmills@.len() <= usize::MAX
        &&& ids_below(self.windmills@, self.bullets@, self.next_entity as int)
    }

    /// Whether the world is well formed.
    pub fn is_well_formed(&self) -> (r: bool)
        ensures
            r == self.wf(),
    {
        if self.scores.score > usize::MAX - self.windmills.len() {
            return false;
        }
        let mut i: usize = 0;
        while i < self.windmills.len()
            invariant
                i <= self.windmills@.len(),
                forall|k: int| 0 <= k < i ==> (#[trigger] self.windmills@[k]).windmill.wf(),
                forall|k: int|
                    0 <= k < i ==> windmill_below(
                        #[trigger] self.windmills@[k],
                        self.next_entity as int,
                    ),
            decreases self.windmills@.len() - i,
        {
            if !self.windmills[i].windmill.is_well_formed() {
                return false;
            }
            if !windmill_is_below(&self.windmills[i], self.next_entity) {
                return false;
            }
            i = i + 1;
        }
        let mut j: usize = 0;
        while j < self.bullets.len()
            invariant
                j <= self.bullets@.len(),
                windmills_wf(self.windmills@),
                self.scores.score + self.windmills@.len() <= usize::MAX,
                forall|k: int|
                    0 <= k < self.windmills@.len() ==> windmill_below(
                        #[trigger] self.windmills@[k],
                        self.next_entity as int,
                    ),
                forall|k: int|
                    0 <= k < j ==> is_direction((#[trigger] self.bullets@[k]).bullet.dir),
                forall|k: int| 0 <= k < j ==> (#[trigger] self.bullets@[k]).id.0 < self.next_entity,
            decreases self.bullets@.len() - j,
        {
            if !self.bullets[j].bullet.dir.is_direction() {
                return false;
            }
            if self.bullets[j].id.0 >= self.next_entity {
                return false;
            }
            j = j + 1;
        }
        true
    }

    /// A world with nothing in it and a score of zero.
    pub fn new() -> (w: World)
        ensures
            w.wf(),
            w.windmills@.len() == 0,
            w.bullets@.len() == 0,
            w.scores.score == 0,
            w.next_entity == 0,
    {
        World { windmills: Vec::new(), bullets: Vec::new(), scores: Scores { score: 0 }, next_entity: 0 }
    }

    /// Adds an intact windmill at (`x`, `ROD_HEIGHT`, `z`), after the others,
    /// and returns the identity of its rod. Its three fins and its rod get the
    /// next four identities.
    pub fn place_windmill(&mut self, x: i64, z: i64) -> (id: Entity)
        requires
            old(self).wf(),
            old(self).next_entity <= u64::MAX - 4,
            old(self).scores.score + old(self).windmills@.len() < usize::MAX,
        ensures
            final(self).wf(),
            final(self).next_entity == old(self).next_entity + 4,
            id == Entity((old(self).next_entity + 3) as u64),
            final(self).windmills@.len() == old(self).windmills@.len() + 1,
            final(self).windmills@.drop_last() == old(self).windmills@,
            is_fresh_windmill(final(self).windmills@.last(), old(self).next_entity as int, x, z),
            final(self).bullets@ == old(self).bullets@,
            final(self).scores == old(self).scores,
    {
        let first: u64 = self.next_entity;
        let windmill = Windmill::new([Entity(first), Entity(first + 1), Entity(first + 2)]);
        let id = Entity(first + 3);
        self.windmills.push(WindmillEntry { id, position: Vec3 { x, y: ROD_HEIGHT, z }, windmill });
        self.next_entity = first + 4;
        proof {
            assert(self.windmills@.drop_last() =~= old(self).windmills@);
            assert forall|i: int| 0 <= i < self.windmills@.len() implies windmill_below(
                #[trigger] self.windmills@[i],
                self.next_entity as int,
            ) by {
                if i < old(self).windmills@.len() {
                    assert(self.windmills@[i] == old(self).windmills@[i]);
                    assert(windmill_below(old(self).windmills@[i], old(self).next_entity as int));
                }
            }
        }
        id
    }

    /// A fresh world: ten intact windmills at places chosen at random, no
    /// projectile, and a score of zero.
    pub fn setup() -> (w: World)
        ensures
            w.wf(),
            w.windmills@.len() == WINDMILL_COUNT,
            w.bullets@.len() == 0,
            w.scores.score == 0,
            w.next_entity == 4 * WINDMILL_COUNT,
            forall|i: int|
                0 <= i < WINDMILL_COUNT ==> -SPREAD <= (#[trigger] w.windmills@[i]).position.x
                    < SPREAD && -SPREAD <= w.windmills@[i].position.z < SPREAD
                    && is_fresh_windmill(
                    w.windmills@[i],
                    4 * i,
                    w.windmills@[i].position.x,
                    w.windmills@[i].position.z,
                ),
    {
        let mut rng = thread_generator();
        let mut w = World::new();
        let mut n: usize = 0;
        while n < WINDMILL_COUNT
            invariant
                n <= WINDMILL_COUNT,
                w.wf(),
                w.windmills@.len() == n,
                w.bullets@.len() == 0,
                w.scores.score == 0,
                w.next_entity == 4 * n,
                forall|i: int|
                    0 <= i < n ==> -SPREAD <= (#[trigger] w.windmills@[i]).position.x < SPREAD
                        && -SPREAD <= w.windmills@[i].position.z < SPREAD && is_fresh_windmill(
                        w.windmills@[i],
                        4 * i,
                        w.windmills@[i].position.x,
                        w.windmills@[i].position.z,
                    ),
            decreases WINDMILL_COUNT - n,
        {
            let x = random_in(&mut rng, -SPREAD, SPREAD);
            let z = random_in(&mut rng, -SPREAD, SPREAD);
            let ghost before = w.windmills@;
            let _ = w.place_windmill(x, z);
            proof {
                assert forall|i: int| 0 <= i < n implies (#[trigger] w.windmills@[i]) == before[i] by {
                    assert(w.windmills@.drop_last()[i] == w.windmills@[i]);
                }
            }
            n = n + 1;
        }
        w
    }

    /// Spawns a projectile at the camera, flying the way the camera looks.
    pub fn spawn_bullet(&mut self, camera: &Camera) -> (b: BulletEntry)
        requires
            old(self).wf(),
            is_direction(camera.forward),
            old(self).next_entity < u64::MAX,
        ensures
            final(self).wf(),
            b == shot(old(self).next_entity, *camera),
            final(self).bullets@ == old(self).bullets@.push(b),
            final(self).next_entity == old(self).next_entity + 1,
            final(self).windmills@ == old(self).windmills@,
            final(self).scores == old(self).scores,
            ids_below(old(self).windmills@, old(self).bullets@, b.id.0 as int),
    {
        let b = BulletEntry {
            id: Entity(self.next_entity),
            position: camera.position,
            bullet: Bullet { dir: camera.forward },
        };
        self.bullets.push(b);
        self.next_entity = self.next_entity + 1;
        proof {
            assert forall|i: int| 0 <= i < self.windmills@.len() implies windmill_below(
                #[trigger] self.windmills@[i],
                self.next_entity as int,
            ) by {
                assert(windmill_below(old(self).windmills@[i], old(self).next_entity as int));
            }
            assert forall|j: int| 0 <= j < self.bullets@.len() implies (
            #[trigger] self.bullets@[j]).id.0 < self.next_entity by {
                if j < old(self).bullets@.len() {
                    assert(self.bullets@[j] == old(self).bullets@[j]);
                }
            }
        }
        b
    }

    /// Handles the input of one tick: decides from the events whether the
    /// player fires, and spawns one projectile if so. Without a camera
    /// nothing happens.
    pub fn fire(
        &mut self,
        camera: Option<Camera>,
        keys: &Vec<KeyboardInput>,
        clicks: &Vec<MouseButtonInput>,
    ) -> (out: FireOutcome)
        requires
            old(self).wf(),
            camera.is_some() ==> is_direction(camera.unwrap().forward),
            old(self).next_entity < u64::MAX,
        ensures
            final(self).wf(),
            out.pointer == decision(camera.is_some(), keys@, clicks@).pointer,
            out.spawned.is_some() == decision(camera.is_some(), keys@, clicks@).fire,
            final(self).windmills@ == old(self).windmills@,
            final(self).scores == old(self).scores,
            match out.spawned {
                Some(b) => camera.is_some() && b == shot(old(self).next_entity, camera.unwrap())
                    && final(self).bullets@ == old(self).bullets@.push(b)
                    && final(self).next_entity == old(self).next_entity + 1,
                None => final(self).bullets@ == old(self).bullets@ && final(self).next_entity
                    == old(self).next_entity,
            },
    {
        let d = decide_fire(camera.is_some(), keys, clicks);
        match camera {
            Some(c) => {
                if d.fire {
                    let b = self.spawn_bullet(&c);
                    FireOutcome { pointer: d.pointer, spawned: Some(b) }
                } else {
                    FireOutcome { pointer: d.pointer, spawned: None }
                }
            },
            None => FireOutcome { pointer: d.pointer, spawned: None },
        }
    }

    /// Runs one tick of `dt_ms` milliseconds: every projectile, in order,
    /// moves, is destroyed if it has left the play volume, and otherwise
    /// hits the first windmill whose hit box holds it. Returns what
    /// happened, in order.
    pub fn tick(&mut self, dt_ms: u32) -> (effects: Vec<Effect>)
        requires
            old(self).wf(),
        ensures
            final(self).wf(),
            final(self).next_entity == old(self).next_entity,
            stage_of(final(self).bullets@, final(self).windmills@, final(self).scores, effects@)
                == after_bullets(
                stage_of(Seq::empty(), old(self).windmills@, old(self).scores, Seq::empty()),
                old(self).bullets@,
                0,
                dt_ms,
            ),
            bullets_in_bounds(final(self).bullets@),
            all_succeed(final(self).windmills@, old(self).windmills@),
            old(self).scores.score <= final(self).scores.score,
            win_notices(effects@) == notices_due(
                old(self).scores.score as int,
                final(self).scores.score as int,
            ),
    {
        let mut survivors: Vec<BulletEntry> = Vec::new();
        let mut effects: Vec<Effect> = Vec::new();
        let mut k: usize = 0;
        while k < self.bullets.len()
            invariant
                k <= self.bullets@.len(),
                self.bullets@ == old(self).bullets@,
                self.next_entity == old(self).next_entity,
                bullets_wf(self.bullets@),
                bullets_in_bounds(survivors@),
                stage_wf(stage_of(survivors@, self.windmills@, self.scores, effects@)),
                after_bullets(
                    stage_of(Seq::empty(), old(self).windmills@, old(self).scores, Seq::empty()),
                    old(self).bullets@,
                    0,
                    dt_ms,
                ) == after_bullets(
                    stage_of(survivors@, self.windmills@, self.scores, effects@),
                    old(self).bullets@,
                    k as int,
                    dt_ms,
                ),
            decreases self.bullets@.len() - k,
        {
            let b = self.bullets[k];
            advance_bullet(
                b,
                dt_ms,
                &mut self.windmills,
                &mut self.scores,
                &mut survivors,
                &mut effects,
            );
            k = k + 1;
        }
        self.bullets = survivors;
        proof {
            lemma_tick_keeps_ids(
                stage_of(Seq::empty(), old(self).windmills@, old(self).scores, Seq::empty()),
                old(self).bullets@,
                0,
                dt_ms,
                old(self).next_entity as int,
            );
            lemma_tick(
                stage_of(Seq::empty(), old(self).windmills@, old(self).scores, Seq::empty()),
                old(self).bullets@,
                0,
                dt_ms,
            );
        }
        effects
    }
}

} // verus!
