//! The pure decisions of the game loop: which way each movement key
//! goes, when a tick asks to quit, how the cursor-capture state steps,
//! and how mouse motion becomes a clamped camera rotation. The event
//! loop itself — windowing, timing, GPU — runs outside this crate and
//! feeds these functions plain values.
//!
//! Angles are counted in hundredths of a radian, so the per-pixel
//! rotation step of the mouse is exactly one unit.

use vstd::prelude::*;

verus! {

/// The keys the game reacts to; everything else is `Other`.
#[derive(Clone, Copy, PartialEq, Eq, Hash, Structural, Debug)]
pub enum GameKey {
    W,
    A,
    S,
    D,
    Q,
    E,
    LShift,
    LAlt,
    Escape,
    Other,
}

/// Whether the cursor is free, about to be captured, or captured.
#[derive(Clone, Copy, PartialEq, Eq, Structural, Debug)]
pub enum MouseState {
    Unlocked,
    NeedsLocked,
    Locked,
}

/// What the windowing layer must do to the cursor after a state step.
#[derive(Clone, Copy, PartialEq, Eq, Structural, Debug)]
pub enum CursorAction {
    Center,
    Release,
    Keep,
}

/// The axis step a movement key asks for: one unit along the camera's
/// local axes, scaled by the caller's speed.
pub open spec fn key_direction(key: GameKey) -> Option<(i64, i64, i64)> {
    match key {
        GameKey::W => Some((0i64, 0i64, -1i64)),
        GameKey::S => Some((0i64, 0i64, 1i64)),
        GameKey::A => Some((-1i64, 0i64, 0i64)),
        GameKey::D => Some((1i64, 0i64, 0i64)),
        GameKey::Q => Some((0i64, -1i64, 0i64)),
        GameKey::E => Some((0i64, 1i64, 0i64)),
        _ => None,
    }
}

/// The movement step of `key`, if it is a movement key.
pub fn movement_for_key(key: GameKey) -> (r: Option<(i64, i64, i64)>)
    ensures
        r == key_direction(key),
{
    match key {
        GameKey::W => Some((0, 0, -1)),
        GameKey::S => Some((0, 0, 1)),
        GameKey::A => Some((-1, 0, 0)),
        GameKey::D => Some((1, 0, 0)),
        GameKey::Q => Some((0, -1, 0)),
        GameKey::E => Some((0, 1, 0)),
        _ => None,
    }
}

/// Whether the key list holds a pressed left shift.
pub open spec fn sneaking(keys: Seq<(GameKey, bool)>) -> bool {
    exists|i: int|
        0 <= i < keys.len() && (#[trigger] keys[i]).0 == GameKey::LShift && keys[i].1
}

/// The factor the camera speed is divided by this tick: 4 while the
/// left shift is held, 1 otherwise.
pub fn sneak_divisor(active_keys: &Vec<(GameKey, bool)>) -> (d: u32)
    ensures
        d == if sneaking(active_keys@) { 4u32 } else { 1u32 },
{
    let n = active_keys.len();
    let mut i: usize = 0;
    while i < n
        invariant
            n == active_keys@.len(),
            i <= n,
            forall|j: int|
                0 <= j < i ==> !((#[trigger] active_keys@[j]).0 == GameKey::LShift
                    && active_keys@[j].1),
        decreases n - i,
    {
        let (key, pressed) = active_keys[i];
        if pressed && key == GameKey::LShift {
            return 4;
        }
        i = i + 1;
    }
    1
}

/// The movement steps a tick performs, in order: one per pressed
/// movement key, stopping at the first pressed escape.
pub open spec fn tick_moves(keys: Seq<(GameKey, bool)>) -> Seq<(i64, i64, i64)>
    decreases keys.len(),
{
    if keys.len() == 0 {
        Seq::empty()
    } else {
        let head = keys.first();
        if head.1 {
            if head.0 == GameKey::Escape {
                Seq::empty()
            } else {
                match key_direction(head.0) {
                    Some(d) => seq![d] + tick_moves(keys.drop_first()),
                    None => tick_moves(keys.drop_first()),
                }
            }
        } else {
            tick_moves(keys.drop_first())
        }
    }
}

/// Whether the key list holds a pressed escape, which ends the game.
pub open spec fn tick_exit(keys: Seq<(GameKey, bool)>) -> bool {
    exists|i: int|
        0 <= i < keys.len() && (#[trigger] keys[i]).0 == GameKey::Escape && keys[i].1
}

/// One game tick's decisions over the active keys: the movement steps
/// to apply, and whether the game should quit.
pub fn game_tick_moves(active_keys: &Vec<(GameKey, bool)>) -> (r: (Vec<(i64, i64, i64)>, bool))
    ensures
        r.0@ == tick_moves(active_keys@),
        r.1 == tick_exit(active_keys@),
{
    let mut moves: Vec<(i64, i64, i64)> = Vec::new();
    let n = active_keys.len();
    proof {
        assert(active_keys@.subrange(0, n as int) =~= active_keys@);
    }
    let mut i: usize = 0;
    while i < n
        invariant
            n == active_keys@.len(),
            i <= n,
            moves@ + tick_moves(active_keys@.subrange(i as int, n as int)) =~= tick_moves(
                active_keys@,
            ),
            forall|j: int|
                0 <= j < i ==> !((#[trigger] active_keys@[j]).0 == GameKey::Escape
                    && active_keys@[j].1),
        decreases n - i,
    {
        proof {
            assert(active_keys@.subrange(i as int, n as int).first() == active_keys@[i as int]);
            assert(active_keys@.subrange(i as int, n as int).drop_first()
                =~= active_keys@.subrange(i + 1, n as int));
        }
        let (key, pressed) = active_keys[i];
        if pressed {
            if key == GameKey::Escape {
                proof {
                    assert(tick_moves(active_keys@.subrange(i as int, n as int))
                        =~= Seq::<(i64, i64, i64)>::empty());
                    assert(moves@ =~= tick_moves(active_keys@));
                }
                return (moves, true);
            }
            match movement_for_key(key) {
                Some(d) => {
                    moves.push(d);
                },
                None => {},
            }
        }
        i = i + 1;
    }
    proof {
        assert(active_keys@.subrange(n as int, n as int)
            =~= Seq::<(GameKey, bool)>::empty());
    }
    (moves, false)
}

/// The cursor-capture step taken when the left alt key goes down: a
/// free cursor asks to be captured, anything else frees it.
pub fn mouse_toggle_on_alt(state: MouseState) -> (r: MouseState)
    ensures
        r == match state {
            MouseState::Unlocked => MouseState::NeedsLocked,
            _ => MouseState::Unlocked,
        },
{
    match state {
        MouseState::Unlocked => MouseState::NeedsLocked,
        _ => MouseState::Unlocked,
    }
}

/// The cursor-capture step taken once per frame: a pending capture
/// centres the cursor and becomes captured; a free cursor is released;
/// a captured one is left alone.
pub fn window_update_action(state: MouseState) -> (r: (MouseState, CursorAction))
    ensures
        r == match state {
            MouseState::NeedsLocked => (MouseState::Locked, CursorAction::Center),
            MouseState::Unlocked => (MouseState::Unlocked, CursorAction::Release),
            MouseState::Locked => (MouseState::Locked, CursorAction::Keep),
        },
{
    match state {
        MouseState::NeedsLocked => (MouseState::Locked, CursorAction::Center),
        MouseState::Unlocked => (MouseState::Unlocked, CursorAction::Release),
        MouseState::Locked => (MouseState::Locked, CursorAction::Keep),
    }
}

/// Whether the cursor is shown: only when the window is unfocused or
/// the cursor is free.
pub fn cursor_visible(focused: bool, state: MouseState) -> (r: bool)
    ensures
        r == !(focused && state != MouseState::Unlocked),
{
    let captured = match state {
        MouseState::Unlocked => false,
        _ => true,
    };
    !(focused && captured)
}

/// The camera rotation that a mouse movement of `(x_diff, y_diff)`
/// pixels from the window centre asks for, in hundredths of a radian:
/// pitch from the vertical motion, yaw from the horizontal, both
/// against the motion's direction.
pub fn cursor_rotation_delta(x_diff: i64, y_diff: i64) -> (r: (i64, i64))
    requires
        x_diff > i64::MIN,
        y_diff > i64::MIN,
    ensures
        r.0 == -y_diff,
        r.1 == -x_diff,
{
    (-y_diff, -x_diff)
}

/// The camera pitch held inside straight-up and straight-down:
/// clamped to 1.5 radians either way, in hundredths of a radian.
pub fn clamp_pitch(pitch: i64) -> (r: i64)
    ensures
        r == if pitch > 150 {
            150i64
        } else if pitch < -150 {
            -150i64
        } else {
            pitch
        },
{
    if pitch > 150 {
        150
    } else if pitch < -150 {
        -150
    } else {
        pitch
    }
}

} // verus!
