//! The firing decision: which of one tick's input events spawns a projectile
//! and what happens to the pointer.

use vstd::prelude::*;

verus! {

/// The keys that the simulation tells apart.
#[derive(Clone, Copy, Debug, PartialEq, Eq, Structural)]
pub enum KeyCode {
    /// Releases the pointer.
    Escape,
    /// Fires.
    Return,
    /// Any other key.
    Other,
}

/// One keyboard event.
#[derive(Clone, Copy, Debug, PartialEq, Eq, Structural)]
pub struct KeyboardInput {
    /// The key, where the device could name it.
    pub key_code: Option<KeyCode>,
    /// Whether the key went down (otherwise it was released).
    pub pressed: bool,
}

/// The mouse buttons that the simulation tells apart.
#[derive(Clone, Copy, Debug, PartialEq, Eq, Structural)]
pub enum MouseButton {
    Left,
    Right,
    Middle,
    Other,
}

/// One mouse-button event.
#[derive(Clone, Copy, Debug, PartialEq, Eq, Structural)]
pub struct MouseButtonInput {
    pub button: MouseButton,
    /// Whether the button went down (otherwise it was released).
    pub pressed: bool,
}

/// What a tick's events do to the pointer.
#[derive(Clone, Copy, Debug, PartialEq, Eq, Structural)]
pub enum Pointer {
    /// No event touched the pointer.
    Unchanged,
    /// The pointer is unlocked and shown.
    Released,
    /// The pointer is locked and hidden.
    Captured,
}

/// The outcome of one tick's input.
#[derive(Clone, Copy, Debug, PartialEq, Eq, Structural)]
pub struct FireDecision {
    /// Whether one projectile is to be spawned.
    pub fire: bool,
    /// What becomes of the pointer.
    pub pointer: Pointer,
}

/// A press of the fire key.
pub open spec fn is_fire_key(e: KeyboardInput) -> bool {
    e.pressed && e.key_code == Some(KeyCode::Return)
}

/// A press of the key that releases the pointer.
pub open spec fn is_cancel_key(e: KeyboardInput) -> bool {
    e.pressed && e.key_code == Some(KeyCode::Escape)
}

/// A press of the left mouse button.
pub open spec fn is_fire_click(e: MouseButtonInput) -> bool {
    e.pressed && e.button == MouseButton::Left
}

/// Whether some keyboard event fires.
pub open spec fn key_fires(keys: Seq<KeyboardInput>) -> bool {
    exists|i: int| 0 <= i < keys.len() && is_fire_key(#[trigger] keys[i])
}

/// Whether some mouse event fires.
pub open spec fn click_fires(clicks: Seq<MouseButtonInput>) -> bool {
    exists|i: int| 0 <= i < clicks.len() && is_fire_click(#[trigger] clicks[i])
}

/// Whether the pointer is released by a keyboard event that is read: one
/// with no fire key before it.
pub open spec fn cancel_is_read(keys: Seq<KeyboardInput>) -> bool {
    exists|i: int|
        0 <= i < keys.len() && is_cancel_key(#[trigger] keys[i]) && !key_fires(keys.take(i))
}

/// The decision that the events of one tick lead to. Without a camera
/// nothing is read. Otherwise the keyboard events are read in order up to
/// the first that fires, then, if none fired, the mouse events up to the
/// first that fires. Every mouse event that is read captures the pointer,
/// and the last event that touched the pointer decides its state.
pub open spec fn decision(
    camera_present: bool,
    keys: Seq<KeyboardInput>,
    clicks: Seq<MouseButtonInput>,
) -> FireDecision {
    if !camera_present {
        FireDecision { fire: false, pointer: Pointer::Unchanged }
    } else if key_fires(keys) {
        FireDecision {
            fire: true,
            pointer: if cancel_is_read(keys) {
                Pointer::Released
            } else {
                Pointer::Unchanged
            },
        }
    } else if clicks.len() > 0 {
        FireDecision { fire: click_fires(clicks), pointer: Pointer::Captured }
    } else {
        FireDecision {
            fire: false,
            pointer: if cancel_is_read(keys) {
                Pointer::Released
            } else {
                Pointer::Unchanged
            },
        }
    }
}

/// Reads the events of one tick and decides whether a projectile is spawned
/// and what becomes of the pointer.
pub fn decide_fire(
    camera_present: bool,
    keys: &Vec<KeyboardInput>,
    clicks: &Vec<MouseButtonInput>,
) -> (d: FireDecision)
    ensures
        d == decision(camera_present, keys@, clicks@),
{
    if !camera_present {
        return FireDecision { fire: false, pointer: Pointer::Unchanged };
    }
    let mut pointer = Pointer::Unchanged;
    let mut i: usize = 0;
    while i < keys.len()
        invariant
            camera_present,
            i <= keys.len(),
            !key_fires(keys@.take(i as int)),
            pointer == Pointer::Released || pointer == Pointer::Unchanged,
            (pointer == Pointer::Released) == (exists|k: int|
                0 <= k < i && is_cancel_key(#[trigger] keys@[k])),
        decreases keys.len() - i,
    {
        let e = keys[i];
        if e.pressed {
            match e.key_code {
                Some(KeyCode::Escape) => {
                    pointer = Pointer::Released;
                },
                Some(KeyCode::Return) => {
                    proof {
                        assert(is_fire_key(keys@[i as int]));
                        lemma_cancel_is_read(keys@, i as int);
                    }
                    return FireDecision { fire: true, pointer };
                },
                _ => {},
            }
        }
        proof {
            let shorter = keys@.take(i as int);
            let longer = keys@.take(i + 1);
            assert forall|k: int| 0 <= k < longer.len() implies !is_fire_key(
                #[trigger] longer[k],
            ) by {
                if k < i {
                    assert(shorter[k] == longer[k]);
                }
            }
        }
        i = i + 1;
    }
    proof {
        assert(keys@.take(keys@.len() as int) =~= keys@);
        lemma_cancel_is_read(keys@, keys@.len() as int);
    }
    let mut j: usize = 0;
    while j < clicks.len()
        invariant
            camera_present,
            j <= clicks.len(),
            !key_fires(keys@),
            forall|k: int| 0 <= k < j ==> !is_fire_click(#[trigger] clicks@[k]),
            j > 0 ==> pointer == Pointer::Captured,
            j == 0 ==> pointer == (if cancel_is_read(keys@) {
                Pointer::Released
            } else {
                Pointer::Unchanged
            }),
        decreases clicks.len() - j,
    {
        pointer = Pointer::Captured;
        let e = clicks[j];
        let left = match e.button {
            MouseButton::Left => true,
            _ => false,
        };
        if e.pressed && left {
            assert(is_fire_click(clicks@[j as int]));
            return FireDecision { fire: true, pointer };
        }
        j = j + 1;
    }
    FireDecision { fire: false, pointer }
}

/// Where the first `n` keyboard events hold no fire key, a release of the
/// pointer is read among all events exactly if one is among those `n`,
/// provided that the events end there or event `n` fires.
proof fn lemma_cancel_is_read(keys: Seq<KeyboardInput>, n: int)
    requires
        0 <= n <= keys.len(),
        !key_fires(keys.take(n)),
        n == keys.len() || is_fire_key(keys[n]),
    ensures
        cancel_is_read(keys) == (exists|k: int| 0 <= k < n && is_cancel_key(#[trigger] keys[k])),
        key_fires(keys) == (n < keys.len()),
{
    assert forall|k: int| 0 <= k < n implies !is_fire_key(#[trigger] keys[k]) by {
        assert(keys.take(n)[k] == keys[k]);
    }
    if exists|k: int| 0 <= k < n && is_cancel_key(#[trigger] keys[k]) {
        let k = choose|k: int| 0 <= k < n && is_cancel_key(#[trigger] keys[k]);
        assert forall|m: int| 0 <= m < keys.take(k).len() implies !is_fire_key(
            #[trigger] keys.take(k)[m],
        ) by {
            assert(keys.take(k)[m] == keys[m]);
        }
        assert(is_cancel_key(keys[k]) && !key_fires(keys.take(k)));
    }
    if cancel_is_read(keys) {
        let k = choose|k: int|
            0 <= k < keys.len() && is_cancel_key(#[trigger] keys[k]) && !key_fires(keys.take(k));
        if k >= n {
            assert(n < keys.len());
            assert(!is_cancel_key(keys[n]));
            assert(k > n);
            assert(keys.take(k)[n] == keys[n]);
            assert(is_fire_key(keys.take(k)[n]));
            assert(false);
        }
    }
    if n < keys.len() {
        assert(is_fire_key(keys[n]));
    }
}

} // verus!
