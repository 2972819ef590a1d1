//! What one projectile does in one tick: it moves, leaves the play volume
//! or stays, and hits at most one windmill.

use vstd::prelude::*;
use crate::geometry::{advanced, is_direction, out_of_bounds, reversed, within_hit_box, Vec3};
use crate::windmill::{lemma_hit_keeps_order, Entity, HitOutcome, Windmill};

verus! {

/// The score at which the game is won.
pub const WIN_SCORE: usize = 10;

/// A projectile: the direction in which it flies.
#[derive(Clone, Copy, Debug, PartialEq, Eq, Structural)]
pub struct Bullet {
    pub dir: Vec3,
}

/// The number of windmills destroyed so far.
#[derive(Clone, Copy, Debug, PartialEq, Eq, Structural)]
pub struct Scores {
    pub score: usize,
}

/// A windmill in the world: its identity, where its rod stands and how much
/// of it is left.
#[derive(Clone, Copy, Debug)]
pub struct WindmillEntry {
    pub id: Entity,
    pub position: Vec3,
    pub windmill: Windmill,
}

/// A projectile in the world: its identity, where it is and how it flies.
#[derive(Clone, Copy, Debug, PartialEq, Eq, Structural)]
pub struct BulletEntry {
    pub id: Entity,
    pub position: Vec3,
    pub bullet: Bullet,
}

/// Something that a tick did and that whoever shows the world has to follow.
#[derive(Clone, Copy, Debug, PartialEq, Eq, Structural)]
pub enum Effect {
    /// The projectile is gone.
    BulletDestroyed(Entity),
    /// The fin is gone.
    FinDestroyed(Entity),
    /// The windmill is gone.
    WindmillDestroyed(Entity),
    /// The score has changed to this value.
    ScoreChanged(usize),
    /// The score has reached the winning score.
    Won,
}

/// The state that a tick works on while it goes through the projectiles:
/// the projectiles that have survived so far, the windmills, the score and
/// the effects so far.
pub struct Stage {
    pub bullets: Seq<BulletEntry>,
    pub windmills: Seq<WindmillEntry>,
    pub score: int,
    pub effects: Seq<Effect>,
}

/// The index of the first windmill from `from` on whose hit box holds `p`,
/// or the number of windmills if there is none.
pub open spec fn first_hit(p: Vec3, mills: Seq<WindmillEntry>, from: int) -> int
    decreases mills.len() - from,
{
    if from < 0 || from >= mills.len() {
        mills.len() as int
    } else if within_hit_box(p, mills[from].position) {
        from
    } else {
        first_hit(p, mills, from + 1)
    }
}

/// The projectile after `dt_ms` milliseconds of flight.
pub open spec fn moved(b: BulletEntry, dt_ms: u32) -> BulletEntry {
    BulletEntry { id: b.id, position: advanced(b.position, b.bullet.dir, dt_ms), bullet: b.bullet }
}

/// The projectile flying back the way it came.
pub open spec fn bounced(b: BulletEntry) -> BulletEntry {
    BulletEntry { id: b.id, position: b.position, bullet: Bullet { dir: reversed(b.bullet.dir) } }
}

/// The windmill entry after it has lost its next fin.
pub open spec fn damaged(m: WindmillEntry) -> WindmillEntry {
    WindmillEntry { id: m.id, position: m.position, windmill: m.windmill.without_next_fin() }
}

/// The win notice that a change of the score to `score` gives rise to.
pub open spec fn win_notice(score: int) -> Seq<Effect> {
    if score == WIN_SCORE {
        seq![Effect::Won]
    } else {
        Seq::empty()
    }
}

/// The stage after projectile `b` has hit the windmill at index `i`. A
/// windmill without fins goes, takes the projectile with it and counts for
/// the score. Any other windmill loses its next fin and sends the projectile
/// back.
pub open spec fn after_hit(s: Stage, b: BulletEntry, i: int) -> Stage {
    let mill = s.windmills[i];
    if mill.windmill.state >= 3 {
        Stage {
            bullets: s.bullets,
            windmills: s.windmills.remove(i),
            score: s.score + 1,
            effects: (s.effects + seq![
                Effect::WindmillDestroyed(mill.id),
                Effect::BulletDestroyed(b.id),
                Effect::ScoreChanged((s.score + 1) as usize),
            ]) + win_notice(s.score + 1),
        }
    } else {
        Stage {
            bullets: s.bullets.push(bounced(b)),
            windmills: s.windmills.update(i, damaged(mill)),
            score: s.score,
            effects: s.effects.push(Effect::FinDestroyed(mill.windmill.next_fin().unwrap())),
        }
    }
}

/// The stage after projectile `b` has had its turn: it moves; out of bounds
/// it is destroyed; otherwise it hits the first windmill whose hit box holds
/// it, if there is one.
pub open spec fn after_bullet(s: Stage, b: BulletEntry, dt_ms: u32) -> Stage {
    let m = moved(b, dt_ms);
    if out_of_bounds(m.position) {
        Stage {
            bullets: s.bullets,
            windmills: s.windmills,
            score: s.score,
            effects: s.effects.push(Effect::BulletDestroyed(b.id)),
        }
    } else {
        let i = first_hit(m.position, s.windmills, 0);
        if i < s.windmills.len() {
            after_hit(s, m, i)
        } else {
            Stage {
                bullets: s.bullets.push(m),
                windmills: s.windmills,
                score: s.score,
                effects: s.effects,
            }
        }
    }
}

/// The stage after the projectiles from index `from` on have had their
/// turns, in order.
pub open spec fn after_bullets(s: Stage, bullets: Seq<BulletEntry>, from: int, dt_ms: u32) -> Stage
    decreases bullets.len() - from,
{
    if from < 0 || from >= bullets.len() {
        s
    } else {
        after_bullets(after_bullet(s, bullets[from], dt_ms), bullets, from + 1, dt_ms)
    }
}

/// Every windmill keeps the order of its fins.
pub open spec fn windmills_wf(mills: Seq<WindmillEntry>) -> bool {
    forall|i: int| 0 <= i < mills.len() ==> (#[trigger] mills[i]).windmill.wf()
}

/// Every projectile has a direction.
pub open spec fn bullets_wf(bullets: Seq<BulletEntry>) -> bool {
    forall|i: int| 0 <= i < bullets.len() ==> is_direction((#[trigger] bullets[i]).bullet.dir)
}

/// No projectile is out of bounds.
pub open spec fn bullets_in_bounds(bullets: Seq<BulletEntry>) -> bool {
    forall|i: int| 0 <= i < bullets.len() ==> !out_of_bounds((#[trigger] bullets[i]).position)
}

/// Every identity that the windmill entry holds, its own and those of its
/// fins, is below `bound`.
pub open spec fn windmill_below(m: WindmillEntry, bound: int) -> bool {
    &&& m.id.0 < bound
    &&& forall|k: int|
        0 <= k < 3 ==> ((#[trigger] m.windmill.fins[k]) matches Some(f) ==> f.0 < bound)
}

/// Every identity among the windmills and the projectiles is below `bound`.
pub open spec fn ids_below(
    windmills: Seq<WindmillEntry>,
    bullets: Seq<BulletEntry>,
    bound: int,
) -> bool {
    &&& forall|i: int| 0 <= i < windmills.len() ==> windmill_below(#[trigger] windmills[i], bound)
    &&& forall|j: int| 0 <= j < bullets.len() ==> (#[trigger] bullets[j]).id.0 < bound
}

/// A stage that a tick can work on: windmills and projectiles are well
/// formed, and the score can still count every windmill.
pub open spec fn stage_wf(s: Stage) -> bool {
    &&& windmills_wf(s.windmills)
    &&& bullets_wf(s.bullets)
    &&& 0 <= s.score
    &&& s.score + s.windmills.len() <= usize::MAX
}

/// The stage made of the given parts.
pub open spec fn stage_of(
    bullets: Seq<BulletEntry>,
    windmills: Seq<WindmillEntry>,
    scores: Scores,
    effects: Seq<Effect>,
) -> Stage {
    Stage { bullets, windmills, score: scores.score as int, effects }
}

/// Whether every identity that the windmill entry holds is below `bound`.
pub fn windmill_is_below(m: &WindmillEntry, bound: u64) -> (r: bool)
    ensures
        r == windmill_below(*m, bound as int),
{
    let mut all = m.id.0 < bound;
    let mut k: usize = 0;
    while k < 3
        invariant
            k <= 3,
            all == (m.id.0 < bound && forall|n: int|
                0 <= n < k ==> ((#[trigger] m.windmill.fins[n]) matches Some(f) ==> f.0 < bound)),
        decreases 3 - k,
    {
        match m.windmill.fins[k] {
            Some(f) => {
                if f.0 >= bound {
                    all = false;
                }
            },
            None => {},
        }
        k = k + 1;
    }
    all
}

/// The first windmill, in the order of the store, whose hit box holds `p`.
pub fn find_first_hit(p: &Vec3, mills: &Vec<WindmillEntry>) -> (r: Option<usize>)
    ensures
        match r {
            Some(i) => i < mills@.len() && i == first_hit(*p, mills@, 0) && within_hit_box(
                *p,
                mills@[i as int].position,
            ),
            None => first_hit(*p, mills@, 0) == mills@.len(),
        },
        forall|k: int|
            0 <= k < first_hit(*p, mills@, 0) ==> !within_hit_box(
                *p,
                (#[trigger] mills@[k]).position,
            ),
{
    let mut i: usize = 0;
    while i < mills.len()
        invariant
            i <= mills@.len(),
            first_hit(*p, mills@, 0) == first_hit(*p, mills@, i as int),
            forall|k: int| 0 <= k < i ==> !within_hit_box(*p, (#[trigger] mills@[k]).position),
        decreases mills.len() - i,
    {
        if p.within_hit_box(&mills[i].position) {
            return Some(i);
        }
        i = i + 1;
    }
    None
}

/// Lets projectile `b`, already moved and in bounds, hit the windmill at
/// `index`.
pub fn resolve_hit(
    b: BulletEntry,
    index: usize,
    windmills: &mut Vec<WindmillEntry>,
    scores: &mut Scores,
    survivors: &mut Vec<BulletEntry>,
    effects: &mut Vec<Effect>,
)
    requires
        index < old(windmills)@.len(),
        is_direction(b.bullet.dir),
        stage_wf(stage_of(old(survivors)@, old(windmills)@, *old(scores), old(effects)@)),
    ensures
        stage_of(final(survivors)@, final(windmills)@, *final(scores), final(effects)@)
            == after_hit(
            stage_of(old(survivors)@, old(windmills)@, *old(scores), old(effects)@),
            b,
            index as int,
        ),
        stage_wf(stage_of(final(survivors)@, final(windmills)@, *final(scores), final(effects)@)),
{
    let mut entry = windmills[index];
    let ghost before = entry.windmill;
    assert(before.wf());
    match entry.windmill.register_hit() {
        HitOutcome::WindmillDestroyed => {
            windmills.remove(index);
            scores.score = scores.score + 1;
            effects.push(Effect::WindmillDestroyed(entry.id));
            effects.push(Effect::BulletDestroyed(b.id));
            effects.push(Effect::ScoreChanged(scores.score));
            if scores.score == WIN_SCORE {
                effects.push(Effect::Won);
            }
            proof {
                let s = stage_of(old(survivors)@, old(windmills)@, *old(scores), old(effects)@);
                assert(effects@ =~= after_hit(s, b, index as int).effects);
            }
        },
        HitOutcome::FinDestroyed(fin) => {
            proof {
                lemma_hit_keeps_order(before);
            }
            windmills[index] = entry;
            survivors.push(
                BulletEntry {
                    id: b.id,
                    position: b.position,
                    bullet: Bullet { dir: b.bullet.dir.reversed() },
                },
            );
            effects.push(Effect::FinDestroyed(fin));
            proof {
                assert(windmills@ =~= old(windmills)@.update(
                    index as int,
                    damaged(old(windmills)@[index as int]),
                ));
            }
        },
    }
}

/// Gives projectile `b` its turn in a tick of `dt_ms` milliseconds.
pub fn advance_bullet(
    b: BulletEntry,
    dt_ms: u32,
    windmills: &mut Vec<WindmillEntry>,
    scores: &mut Scores,
    survivors: &mut Vec<BulletEntry>,
    effects: &mut Vec<Effect>,
)
    requires
        is_direction(b.bullet.dir),
        stage_wf(stage_of(old(survivors)@, old(windmills)@, *old(scores), old(effects)@)),
    ensures
        stage_of(final(survivors)@, final(windmills)@, *final(scores), final(effects)@)
            == after_bullet(
            stage_of(old(survivors)@, old(windmills)@, *old(scores), old(effects)@),
            b,
            dt_ms,
        ),
        stage_wf(stage_of(final(survivors)@, final(windmills)@, *final(scores), final(effects)@)),
        bullets_in_bounds(old(survivors)@) ==> bullets_in_bounds(final(survivors)@),
{
    let position = b.position.advanced(&b.bullet.dir, dt_ms);
    let m = BulletEntry { id: b.id, position, bullet: b.bullet };
    if position.out_of_bounds() {
        effects.push(Effect::BulletDestroyed(b.id));
        return ;
    }
    match find_first_hit(&position, windmills) {
        Some(index) => {
            resolve_hit(m, index, windmills, scores, survivors, effects);
        },
        None => {
            survivors.push(m);
        },
    }
}

} // verus!
