//! What holds of every tick, proved from the definitions of the stages.

use vstd::prelude::*;
use crate::collision::{
    after_bullet, after_bullets, after_hit, bounced, bullets_in_bounds, first_hit, ids_below,
    moved, stage_wf, windmill_below, BulletEntry, Effect, Stage, WindmillEntry, WIN_SCORE,
};
use crate::geometry::{is_direction, out_of_bounds, reversed};
use crate::windmill::{lemma_fins_left, lemma_hit_keeps_order};

verus! {

/// `later` is the windmill `earlier` at a later time: the same windmill at
/// the same place, with no fewer fins lost, at most three, and as many fins
/// left as it has not lost.
pub open spec fn succeeds(later: WindmillEntry, earlier: WindmillEntry) -> bool {
    &&& later.id == earlier.id
    &&& later.position == earlier.position
    &&& earlier.windmill.state <= later.windmill.state <= 3
    &&& later.windmill.live_fins() == 3 - later.windmill.state
}

/// Every windmill of `later` is one of `earlier` at a later time.
pub open spec fn all_succeed(later: Seq<WindmillEntry>, earlier: Seq<WindmillEntry>) -> bool {
    forall|j: int|
        0 <= j < later.len() ==> exists|i: int|
            0 <= i < earlier.len() && succeeds(#[trigger] later[j], #[trigger] earlier[i])
}

/// Number of win notices among the effects.
pub open spec fn win_notices(effects: Seq<Effect>) -> nat
    decreases effects.len(),
{
    if effects.len() == 0 {
        0
    } else {
        win_notices(effects.drop_last()) + if effects.last() == Effect::Won {
            1nat
        } else {
            0nat
        }
    }
}

/// Number of win notices that are due when the score goes from `before` to
/// `after`: one if it reaches the winning score on the way, else none.
pub open spec fn notices_due(before: int, after: int) -> nat {
    if before < WIN_SCORE <= after {
        1
    } else {
        0
    }
}

/// Over two stretches of time in which the score does not fall, as many win
/// notices are due as over both together: so there is one in all exactly if
/// the score reaches the winning score, however the ticks divide the time.
pub proof fn lemma_notices_add(a: int, b: int, c: int)
    requires
        a <= b <= c,
    ensures
        notices_due(a, b) + notices_due(b, c) == notices_due(a, c),
        notices_due(a, c) <= 1,
{
}

proof fn lemma_notices_push(effects: Seq<Effect>, e: Effect)
    ensures
        win_notices(effects.push(e)) == win_notices(effects) + if e == Effect::Won {
            1nat
        } else {
            0nat
        },
{
    assert(effects.push(e).drop_last() =~= effects);
}

/// A hit on a windmill that has all its fins destroys the fin in slot 0,
/// leaves the windmill with state 1 and sends the projectile back; both stay
/// in the world and the score stays.
pub proof fn lemma_first_hit_on_intact(s: Stage, b: BulletEntry, i: int)
    requires
        stage_wf(s),
        0 <= i < s.windmills.len(),
        s.windmills[i].windmill.state == 0,
    ensures
        after_hit(s, b, i).windmills.len() == s.windmills.len(),
        after_hit(s, b, i).windmills[i].id == s.windmills[i].id,
        after_hit(s, b, i).windmills[i].windmill.state == 1,
        after_hit(s, b, i).windmills[i].windmill.fins[0].is_none(),
        after_hit(s, b, i).windmills[i].windmill.fins[1] == s.windmills[i].windmill.fins[1],
        after_hit(s, b, i).windmills[i].windmill.fins[2] == s.windmills[i].windmill.fins[2],
        after_hit(s, b, i).effects == s.effects.push(
            Effect::FinDestroyed(s.windmills[i].windmill.fins[0].unwrap()),
        ),
        after_hit(s, b, i).bullets == s.bullets.push(bounced(b)),
        bounced(b).id == b.id,
        bounced(b).bullet.dir == reversed(b.bullet.dir),
        after_hit(s, b, i).score == s.score,
{
}

/// A hit on a windmill that has lost all its fins destroys the windmill and
/// the projectile and raises the score by exactly one.
pub proof fn lemma_terminal_hit(s: Stage, b: BulletEntry, i: int)
    requires
        stage_wf(s),
        0 <= i < s.windmills.len(),
        s.windmills[i].windmill.state == 3,
    ensures
        after_hit(s, b, i).windmills == s.windmills.remove(i),
        after_hit(s, b, i).bullets == s.bullets,
        after_hit(s, b, i).score == s.score + 1,
        after_hit(s, b, i).effects.len() >= s.effects.len() + 3,
        after_hit(s, b, i).effects[s.effects.len() as int] == Effect::WindmillDestroyed(
            s.windmills[i].id,
        ),
        after_hit(s, b, i).effects[s.effects.len() as int + 1] == Effect::BulletDestroyed(b.id),
        after_hit(s, b, i).effects[s.effects.len() as int + 2] == Effect::ScoreChanged(
            (s.score + 1) as usize,
        ),
{
}

/// What one projectile's turn keeps and changes: the stage stays well
/// formed; the projectiles that stay are in bounds; every windmill that is
/// left is one from before with no fewer fins lost; the score does not
/// fall and rises by at most one; and a win notice comes exactly if the
/// score reaches the winning score.
pub proof fn lemma_turn(s: Stage, b: BulletEntry, dt_ms: u32)
    requires
        stage_wf(s),
        is_direction(b.bullet.dir),
        bullets_in_bounds(s.bullets),
    ensures
        stage_wf(after_bullet(s, b, dt_ms)),
        bullets_in_bounds(after_bullet(s, b, dt_ms).bullets),
        all_succeed(after_bullet(s, b, dt_ms).windmills, s.windmills),
        s.score <= after_bullet(s, b, dt_ms).score <= s.score + 1,
        s.bullets.len() <= after_bullet(s, b, dt_ms).bullets.len() <= s.bullets.len() + 1,
        win_notices(after_bullet(s, b, dt_ms).effects) == win_notices(s.effects) + notices_due(
            s.score,
            after_bullet(s, b, dt_ms).score,
        ),
{
    let m = moved(b, dt_ms);
    let after = after_bullet(s, b, dt_ms);
    assert forall|j: int| 0 <= j < s.windmills.len() implies succeeds(
        #[trigger] s.windmills[j],
        s.windmills[j],
    ) by {
        lemma_fins_left(s.windmills[j].windmill);
    }
    if out_of_bounds(m.position) {
        lemma_notices_push(s.effects, Effect::BulletDestroyed(b.id));
    } else {
        let i = first_hit(m.position, s.windmills, 0);
        lemma_first_hit_range(m.position, s.windmills, 0);
        if i < s.windmills.len() {
            let mill = s.windmills[i];
            assert(mill.windmill.wf());
            if mill.windmill.state >= 3 {
                let e1 = Effect::WindmillDestroyed(mill.id);
                let e2 = Effect::BulletDestroyed(m.id);
                let e3 = Effect::ScoreChanged((s.score + 1) as usize);
                lemma_notices_push(s.effects, e1);
                lemma_notices_push(s.effects.push(e1), e2);
                lemma_notices_push(s.effects.push(e1).push(e2), e3);
                let base = s.effects.push(e1).push(e2).push(e3);
                if s.score + 1 == WIN_SCORE {
                    lemma_notices_push(base, Effect::Won);
                    assert(after.effects =~= base.push(Effect::Won));
                } else {
                    assert(after.effects =~= base);
                }
                assert forall|j: int| 0 <= j < after.windmills.len() implies exists|k: int|
                    0 <= k < s.windmills.len() && succeeds(
                        #[trigger] after.windmills[j],
                        #[trigger] s.windmills[k],
                    ) by {
                    let k = if j < i {
                        j
                    } else {
                        j + 1
                    };
                    assert(after.windmills[j] == s.windmills[k]);
                    assert(succeeds(s.windmills[k], s.windmills[k]));
                }
            } else {
                lemma_hit_keeps_order(mill.windmill);
                lemma_fins_left(mill.windmill.without_next_fin());
                lemma_notices_push(
                    s.effects,
                    Effect::FinDestroyed(mill.windmill.next_fin().unwrap()),
                );
                assert forall|j: int| 0 <= j < after.windmills.len() implies exists|k: int|
                    0 <= k < s.windmills.len() && succeeds(
                        #[trigger] after.windmills[j],
                        #[trigger] s.windmills[k],
                    ) by {
                    if j != i {
                        assert(after.windmills[j] == s.windmills[j]);
                        assert(succeeds(s.windmills[j], s.windmills[j]));
                    }
                    assert(succeeds(after.windmills[j], s.windmills[j]));
                }
                assert forall|j: int| 0 <= j < after.windmills.len() implies (
                #[trigger] after.windmills[j]).windmill.wf() by {
                    if j != i {
                        assert(after.windmills[j] == s.windmills[j]);
                    }
                }
            }
        }
    }
}

/// A projectile's turn brings no identity into the stage but its own.
pub proof fn lemma_turn_keeps_ids(s: Stage, b: BulletEntry, dt_ms: u32, bound: int)
    requires
        stage_wf(s),
        ids_below(s.windmills, s.bullets, bound),
        b.id.0 < bound,
    ensures
        ids_below(after_bullet(s, b, dt_ms).windmills, after_bullet(s, b, dt_ms).bullets, bound),
{
    let m = moved(b, dt_ms);
    let after = after_bullet(s, b, dt_ms);
    if !out_of_bounds(m.position) {
        let i = first_hit(m.position, s.windmills, 0);
        lemma_first_hit_range(m.position, s.windmills, 0);
        if i < s.windmills.len() {
            let mill = s.windmills[i];
            assert(windmill_below(mill, bound));
            if mill.windmill.state >= 3 {
                assert forall|j: int| 0 <= j < after.windmills.len() implies windmill_below(
                    #[trigger] after.windmills[j],
                    bound,
                ) by {
                    let k = if j < i {
                        j
                    } else {
                        j + 1
                    };
                    assert(after.windmills[j] == s.windmills[k]);
                }
            } else {
                assert forall|j: int| 0 <= j < after.windmills.len() implies windmill_below(
                    #[trigger] after.windmills[j],
                    bound,
                ) by {
                    if j == i {
                        let hit = after.windmills[j];
                        assert forall|k: int| 0 <= k < 3 implies ((
                        #[trigger] hit.windmill.fins[k]) matches Some(f) ==> f.0 < bound) by {
                            assert(hit.windmill.fins[k].is_none() || hit.windmill.fins[k]
                                == mill.windmill.fins[k]);
                        }
                    } else {
                        assert(after.windmills[j] == s.windmills[j]);
                    }
                }
                assert forall|j: int| 0 <= j < after.bullets.len() implies (
                #[trigger] after.bullets[j]).id.0 < bound by {
                    if j < s.bullets.len() {
                        assert(after.bullets[j] == s.bullets[j]);
                    }
                }
            }
        } else {
            assert forall|j: int| 0 <= j < after.bullets.len() implies (
            #[trigger] after.bullets[j]).id.0 < bound by {
                if j < s.bullets.len() {
                    assert(after.bullets[j] == s.bullets[j]);
                }
            }
        }
    }
}

/// Nor do the turns of all projectiles from index `from` on: a tick brings
/// no identity into the world.
pub proof fn lemma_tick_keeps_ids(
    s: Stage,
    bullets: Seq<BulletEntry>,
    from: int,
    dt_ms: u32,
    bound: int,
)
    requires
        stage_wf(s),
        bullets_in_bounds(s.bullets),
        0 <= from,
        forall|k: int| 0 <= k < bullets.len() ==> is_direction((#[trigger] bullets[k]).bullet.dir),
        forall|k: int| 0 <= k < bullets.len() ==> (#[trigger] bullets[k]).id.0 < bound,
        ids_below(s.windmills, s.bullets, bound),
    ensures
        ids_below(
            after_bullets(s, bullets, from, dt_ms).windmills,
            after_bullets(s, bullets, from, dt_ms).bullets,
            bound,
        ),
    decreases bullets.len() - from,
{
    if from < bullets.len() {
        lemma_turn(s, bullets[from], dt_ms);
        lemma_turn_keeps_ids(s, bullets[from], dt_ms, bound);
        lemma_tick_keeps_ids(after_bullet(s, bullets[from], dt_ms), bullets, from + 1, dt_ms, bound);
    }
}

proof fn lemma_first_hit_range(p: crate::geometry::Vec3, mills: Seq<WindmillEntry>, from: int)
    requires
        0 <= from,
    ensures
        from <= first_hit(p, mills, from) || first_hit(p, mills, from) == mills.len(),
        0 <= first_hit(p, mills, from) <= mills.len(),
    decreases mills.len() - from,
{
    if from < mills.len() {
        lemma_first_hit_range(p, mills, from + 1);
    }
}

/// The same holds of the turns of all projectiles from index `from` on,
/// taken together: over a whole tick the stage stays well formed, no
/// projectile that stays is out of bounds, no windmill gets a fin back, the
/// score does not fall, and the win notice comes exactly once in the tick in
/// which the score reaches the winning score and in no other.
pub proof fn lemma_tick(s: Stage, bullets: Seq<BulletEntry>, from: int, dt_ms: u32)
    requires
        stage_wf(s),
        bullets_in_bounds(s.bullets),
        0 <= from,
        forall|k: int| 0 <= k < bullets.len() ==> is_direction((#[trigger] bullets[k]).bullet.dir),
    ensures
        stage_wf(after_bullets(s, bullets, from, dt_ms)),
        bullets_in_bounds(after_bullets(s, bullets, from, dt_ms).bullets),
        all_succeed(after_bullets(s, bullets, from, dt_ms).windmills, s.windmills),
        s.score <= after_bullets(s, bullets, from, dt_ms).score,
        win_notices(after_bullets(s, bullets, from, dt_ms).effects) == win_notices(s.effects)
            + notices_due(s.score, after_bullets(s, bullets, from, dt_ms).score),
    decreases bullets.len() - from,
{
    if from >= bullets.len() {
        assert forall|j: int| 0 <= j < s.windmills.len() implies succeeds(
            #[trigger] s.windmills[j],
            s.windmills[j],
        ) by {
            lemma_fins_left(s.windmills[j].windmill);
        }
    } else {
        let next = after_bullet(s, bullets[from], dt_ms);
        lemma_turn(s, bullets[from], dt_ms);
        lemma_tick(next, bullets, from + 1, dt_ms);
        let last = after_bullets(next, bullets, from + 1, dt_ms);
        assert forall|j: int| 0 <= j < last.windmills.len() implies exists|k: int|
            0 <= k < s.windmills.len() && succeeds(
                #[trigger] last.windmills[j],
                #[trigger] s.windmills[k],
            ) by {
            let mid = choose|i: int|
                0 <= i < next.windmills.len() && succeeds(
                    #[trigger] last.windmills[j],
                    #[trigger] next.windmills[i],
                );
            let k = choose|k: int|
                0 <= k < s.windmills.len() && succeeds(
                    #[trigger] next.windmills[mid],
                    #[trigger] s.windmills[k],
                );
            assert(succeeds(last.windmills[j], s.windmills[k]));
        }
    }
}

} // verus!
