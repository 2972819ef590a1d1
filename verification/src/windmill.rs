//! Windmills and the stages in which they are destroyed.

use vstd::prelude::*;

verus! {

/// The identity of something that lives in the world.
#[derive(Clone, Copy, Debug, PartialEq, Eq, Structural)]
pub struct Entity(pub u64);

/// A target with three fins, which are shot off one by one.
#[derive(Clone, Copy, Debug)]
pub struct Windmill {
    /// Number of fins already destroyed.
    pub state: usize,
    /// The remaining fins, each in the slot of its index.
    pub fins: [Option<Entity>; 3],
}

/// What a hit did to a windmill.
#[derive(Clone, Copy, Debug, PartialEq, Eq, Structural)]
pub enum HitOutcome {
    /// The windmill lost this fin and stays.
    FinDestroyed(Entity),
    /// The windmill had no fin left and is destroyed itself.
    WindmillDestroyed,
}

/// Number of slots among the first `n` that still hold a fin.
pub open spec fn occupied(fins: Seq<Option<Entity>>, n: nat) -> nat
    decreases n,
{
    if n == 0 {
        0
    } else {
        occupied(fins, (n - 1) as nat) + if fins[n - 1].is_some() {
            1nat
        } else {
            0nat
        }
    }
}

impl Windmill {
    /// The fins are destroyed in the order of their slots: the slots below
    /// `state` are empty and the others are occupied.
    pub open spec fn wf(&self) -> bool {
        &&& self.state <= 3
        &&& forall|i: int| 0 <= i < 3 ==> (#[trigger] self.fins[i]).is_none() == (i < self.state)
    }

    /// Number of fins that the windmill still has.
    pub open spec fn live_fins(&self) -> nat {
        occupied(self.fins@, 3)
    }

    /// The fin that the next hit destroys: the one in slot `state`.
    pub open spec fn next_fin(&self) -> Option<Entity> {
        if self.state < 3 {
            self.fins[self.state as int]
        } else {
            None
        }
    }

    /// The windmill after it has lost the fin in slot `state`.
    pub open spec fn without_next_fin(&self) -> Windmill {
        Windmill {
            state: (self.state + 1) as usize,
            fins: [
                if self.state == 0 {
                    None
                } else {
                    self.fins[0]
                },
                if self.state == 1 {
                    None
                } else {
                    self.fins[1]
                },
                if self.state == 2 {
                    None
                } else {
                    self.fins[2]
                },
            ],
        }
    }

    /// An intact windmill with the given fins.
    pub fn new(fins: [Entity; 3]) -> (w: Windmill)
        ensures
            w.wf(),
            w.state == 0,
            forall|i: int| 0 <= i < 3 ==> w.fins[i] == Some(fins[i]),
    {
        Windmill { state: 0, fins: [Some(fins[0]), Some(fins[1]), Some(fins[2])] }
    }

    /// Whether the fins are in order.
    pub fn is_well_formed(&self) -> (r: bool)
        ensures
            r == self.wf(),
    {
        let in_order = self.state <= 3 && self.fins[0].is_none() == (0 < self.state)
            && self.fins[1].is_none() == (1 < self.state) && self.fins[2].is_none() == (2
            < self.state);
        proof {
            if !in_order && self.state <= 3 {
                if self.wf() {
                    assert(self.fins[0].is_none() == (0 < self.state));
                    assert(self.fins[1].is_none() == (1 < self.state));
                    assert(self.fins[2].is_none() == (2 < self.state));
                }
            }
        }
        in_order
    }

    /// Records one hit. A windmill that still has a fin loses the one in
    /// slot `state` and counts it; one without fins is left as it is and
    /// reported as destroyed.
    pub fn register_hit(&mut self) -> (outcome: HitOutcome)
        requires
            old(self).wf(),
        ensures
            final(self).wf(),
            old(self).state <= final(self).state <= 3,
            old(self).state == 3 ==> outcome == HitOutcome::WindmillDestroyed && *final(self) == *old(
                self,
            ),
            old(self).state < 3 ==> old(self).next_fin().is_some() && outcome
                == HitOutcome::FinDestroyed(old(self).next_fin().unwrap()) && *final(self) == old(
                self,
            ).without_next_fin(),
    {
        let slot: usize = self.state;
        if slot == 3 {
            return HitOutcome::WindmillDestroyed;
        }
        match self.fins[slot] {
            Some(fin) => {
                self.fins[slot] = None;
                self.state = slot + 1;
                assert(self.fins =~= old(self).without_next_fin().fins);
                HitOutcome::FinDestroyed(fin)
            },
            None => {
                proof {
                    assert(self.fins[slot as int].is_none() == (slot < self.state));
                }
                HitOutcome::WindmillDestroyed
            },
        }
    }
}

/// Losing a fin keeps a windmill well formed, raises its state by one and
/// leaves it with one fin fewer.
pub proof fn lemma_hit_keeps_order(w: Windmill)
    requires
        w.wf(),
        w.state < 3,
    ensures
        w.without_next_fin().wf(),
        w.without_next_fin().state == w.state + 1,
        w.without_next_fin().live_fins() + 1 == w.live_fins(),
{
    let after = w.without_next_fin();
    assert forall|i: int| 0 <= i < 3 implies (#[trigger] after.fins[i]).is_none() == (i
        < after.state) by {
        assert(w.fins[i].is_none() == (i < w.state));
    }
    lemma_fins_left(w);
    lemma_fins_left(after);
}

/// A well-formed windmill has as many fins as it has not yet lost.
pub proof fn lemma_fins_left(w: Windmill)
    requires
        w.wf(),
    ensures
        w.live_fins() == 3 - w.state,
{
    reveal_with_fuel(occupied, 4);
    assert(w.fins[0].is_none() == (0 < w.state));
    assert(w.fins[1].is_none() == (1 < w.state));
    assert(w.fins[2].is_none() == (2 < w.state));
}

} // verus!
