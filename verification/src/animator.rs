//! The animation of the fins: every fin that is still there turns about the
//! hub of its windmill, a third of a turn apart from its neighbours.

use vstd::prelude::*;
use crate::collision::{windmills_wf, WindmillEntry};
use crate::geometry::{add_clamped, clamp, Vec3};
use crate::windmill::Entity;

verus! {

/// A third of a full turn, in microradians.
pub const THIRD_TURN: u128 = 2_094_395;

/// Height of the hub above the position of the rod, in position units.
pub const HUB_HEIGHT: i64 = 2_500_000;

/// Distance of a fin from the hub, in position units.
pub const ARM_LENGTH: i64 = 500_000;

/// A fin: the index of its slot, which sets it apart from the other fins of
/// its windmill.
#[derive(Clone, Copy, Debug, PartialEq, Eq, Structural)]
pub struct WindmillFin {
    pub index: usize,
}

/// Where a fin is in its turn: it has turned by `phase` microradians about
/// the axis that points forward through `hub`, and stands `ARM_LENGTH` from
/// the hub at that angle, counted from straight up towards negative x.
#[derive(Clone, Copy, Debug, PartialEq, Eq, Structural)]
pub struct FinPose {
    pub fin: Entity,
    pub hub: Vec3,
    pub phase: u128,
}

/// The phase of the fin with the given index, in microradians, after
/// `elapsed_ms` milliseconds: one radian per second, and a third of a turn
/// more for each index.
pub open spec fn phase(elapsed_ms: u64, index: usize) -> int {
    elapsed_ms * 1000 + index * THIRD_TURN
}

/// The hub of a windmill whose rod stands at `p`.
pub open spec fn hub(p: Vec3) -> Vec3 {
    Vec3 { x: p.x, y: clamp(p.y + HUB_HEIGHT) as i64, z: p.z }
}

/// The pose of the fin in slot `slot` of windmill `m`.
pub open spec fn pose_of(m: WindmillEntry, slot: int, elapsed_ms: u64) -> FinPose {
    FinPose {
        fin: m.windmill.fins[slot].unwrap(),
        hub: hub(m.position),
        phase: phase(elapsed_ms, slot as usize) as u128,
    }
}

/// The poses of the fins that windmill `m` still has, in the order of their
/// slots.
pub open spec fn windmill_poses(m: WindmillEntry, elapsed_ms: u64) -> Seq<FinPose> {
    Seq::new(
        (3 - m.windmill.state) as nat,
        |k: int| pose_of(m, m.windmill.state + k, elapsed_ms),
    )
}

/// The poses of the fins of the first `n` windmills, windmill by windmill.
pub open spec fn poses(mills: Seq<WindmillEntry>, n: int, elapsed_ms: u64) -> Seq<FinPose>
    decreases n,
{
    if n <= 0 {
        Seq::empty()
    } else {
        poses(mills, n - 1, elapsed_ms) + windmill_poses(mills[n - 1], elapsed_ms)
    }
}

/// The phase of a fin after `elapsed_ms` milliseconds.
pub fn fin_phase(elapsed_ms: u64, fin: &WindmillFin) -> (r: u128)
    ensures
        r == phase(elapsed_ms, fin.index),
{
    let time: u128 = elapsed_ms as u128;
    let index: u128 = fin.index as u128;
    time * 1000 + index * THIRD_TURN
}

/// The poses, after `elapsed_ms` milliseconds, of all fins that are still
/// there: windmill by windmill, and within a windmill in the order of the
/// slots. Empty slots are passed over.
pub fn fin_poses(mills: &Vec<WindmillEntry>, elapsed_ms: u64) -> (r: Vec<FinPose>)
    requires
        windmills_wf(mills@),
    ensures
        r@ == poses(mills@, mills@.len() as int, elapsed_ms),
{
    let mut out: Vec<FinPose> = Vec::new();
    let mut n: usize = 0;
    while n < mills.len()
        invariant
            n <= mills@.len(),
            windmills_wf(mills@),
            out@ == poses(mills@, n as int, elapsed_ms),
        decreases mills.len() - n,
    {
        let m = mills[n];
        assert(m.windmill.wf());
        let center = Vec3 { x: m.position.x, y: add_clamped(m.position.y, HUB_HEIGHT), z: m.position.z };
        let mut slot: usize = m.windmill.state;
        while slot < 3
            invariant
                m == mills@[n as int],
                m.windmill.wf(),
                m.windmill.state <= slot <= 3,
                center == hub(m.position),
                out@ == poses(mills@, n as int, elapsed_ms) + Seq::new(
                    (slot - m.windmill.state) as nat,
                    |k: int| pose_of(m, m.windmill.state + k, elapsed_ms),
                ),
            decreases 3 - slot,
        {
            let ghost before = out@;
            match m.windmill.fins[slot] {
                Some(fin) => {
                    out.push(
                        FinPose {
                            fin,
                            hub: center,
                            phase: fin_phase(elapsed_ms, &WindmillFin { index: slot }),
                        },
                    );
                },
                None => {
                    proof {
                        assert(m.windmill.fins[slot as int].is_none() == (slot < m.windmill.state));
                    }
                },
            }
            slot = slot + 1;
            proof {
                assert(out@ =~= poses(mills@, n as int, elapsed_ms) + Seq::new(
                    (slot - m.windmill.state) as nat,
                    |k: int| pose_of(m, m.windmill.state + k, elapsed_ms),
                ));
            }
        }
        n = n + 1;
    }
    out
}

/// At the start the fin with index 0 has phase zero and the fin with index 1
/// a third of a turn, and at any time the phases of two fins differ by a
/// third of a turn for each step between their indices.
pub proof fn lemma_phase_stagger(elapsed_ms: u64, i: usize, j: usize)
    ensures
        phase(0, 0) == 0,
        phase(0, 1) == THIRD_TURN,
        phase(elapsed_ms, i) - phase(elapsed_ms, j) == (i - j) * THIRD_TURN,
{
}

} // verus!
