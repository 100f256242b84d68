//! The controller of the rotating-cube demo: its edge list, orientation and
//! input state, and the per-frame input transition.
//!
//! Angles are counted in half-degrees (one unit is 0.5 degrees) so that every
//! keyboard step — 0.5, 1.0 or 2.0 degrees — is an exact integer, and each
//! angle is kept wrapped into `[0, 720)`, which is one full turn; rotation is
//! periodic in a full turn, so the wrap does not change the orientation the
//! angle stands for. In manual mode a key press moves one angle by the step
//! that the modifier keys select; in auto mode every frame drifts each angle
//! by an independent random whole-degree step from `{0, 1, 2}`.

use crate::geometry::Edge;
use crate::geometry::edge_list;
use crate::geometry::edge_seq;
use rand::Rng;
use vstd::prelude::*;

verus! {

/// What drives the rotation: random drift, or the keyboard.
#[derive(Clone, Copy, Debug, PartialEq, Eq, Structural)]
pub enum Mode {
    Auto,
    Manual,
}

/// A key the controller reacts to. Keys it ignores arrive as `Other`.
#[derive(Clone, Copy, Debug, PartialEq, Eq, Structural)]
pub enum Key {
    Char(char),
    Esc,
    Other,
}

/// One key press together with its modifier flags.
#[derive(Clone, Copy, Debug, PartialEq, Eq, Structural)]
pub struct KeyPress {
    pub code: Key,
    pub shift: bool,
    pub alt: bool,
}

/// The three accumulated rotation angles, in half-degrees, each in
/// `[0, 720)`.
#[derive(Clone, Copy, Debug, PartialEq, Eq, Structural)]
pub struct Angles {
    pub x: i32,
    pub y: i32,
    pub z: i32,
}

/// The controller's mode, orientation and input state.
#[derive(Clone, Copy, Debug, PartialEq, Eq, Structural)]
pub struct ControlState {
    pub mode: Mode,
    pub exit: bool,
    pub ang: Angles,
    pub key_press: KeyPress,
    pub shift_down: bool,
    pub alt_down: bool,
    /// The manual rotation step, in half-degrees: 1, 2 or 4.
    pub rotation_factor: i32,
}

/// An angle in half-degrees lies in `[0, 720)`.
pub open spec fn wf_angle(a: i32) -> bool {
    0 <= a < 720
}

/// All three angles are well formed.
pub open spec fn wf_angles(a: Angles) -> bool {
    wf_angle(a.x) && wf_angle(a.y) && wf_angle(a.z)
}

/// The controller state's invariant: angles wrapped, and the manual step one
/// of the three the modifiers can select.
pub open spec fn wf_state(st: ControlState) -> bool {
    wf_angles(st.ang) && (st.rotation_factor == 1 || st.rotation_factor == 2
        || st.rotation_factor == 4)
}

/// Adds a signed step to an angle and wraps the sum into `[0, 720)`.
pub open spec fn add_wrap(a: i32, d: int) -> i32 {
    ((a + d + 720) % 720) as i32
}

/// The manual rotation step, in half-degrees, selected by the modifiers:
/// Shift and Alt together 2 (1.0 degrees), Shift alone 1 (0.5 degrees),
/// Alt alone 4 (2.0 degrees), neither 2 (1.0 degrees).
pub open spec fn step_half_degrees(shift: bool, alt: bool) -> i32 {
    if shift {
        if alt {
            2i32
        } else {
            1i32
        }
    } else if alt {
        4i32
    } else {
        2i32
    }
}

/// The angles with the zero triple substituted.
pub open spec fn zero_angles() -> Angles {
    Angles { x: 0i32, y: 0i32, z: 0i32 }
}

/// One key press handled in manual mode. The press is recorded with its
/// modifiers, the modifiers select the step, and the key then moves one
/// angle: `w`/`s` move X up/down, `a`/`d` move Y down/up, `j`/`k` move Z
/// up/down, `r` zeroes all three angles, `m` hands control back to auto
/// mode, and the escape key requests exit. Other keys change nothing more.
pub open spec fn manual_step(st: ControlState, k: KeyPress) -> ControlState {
    let f = step_half_degrees(k.shift, k.alt);
    let base = ControlState {
        key_press: k,
        shift_down: k.shift,
        alt_down: k.alt,
        rotation_factor: f,
        ..st
    };
    match k.code {
        Key::Char(c) => if c == 'w' {
            ControlState { ang: Angles { x: add_wrap(base.ang.x, f as int), ..base.ang }, ..base }
        } else if c == 'a' {
            ControlState { ang: Angles { y: add_wrap(base.ang.y, -f as int), ..base.ang }, ..base }
        } else if c == 's' {
            ControlState { ang: Angles { x: add_wrap(base.ang.x, -f as int), ..base.ang }, ..base }
        } else if c == 'd' {
            ControlState { ang: Angles { y: add_wrap(base.ang.y, f as int), ..base.ang }, ..base }
        } else if c == 'j' {
            ControlState { ang: Angles { z: add_wrap(base.ang.z, f as int), ..base.ang }, ..base }
        } else if c == 'k' {
            ControlState { ang: Angles { z: add_wrap(base.ang.z, -f as int), ..base.ang }, ..base }
        } else if c == 'r' {
            ControlState { ang: zero_angles(), ..base }
        } else if c == 'm' {
            ControlState { mode: Mode::Auto, ..base }
        } else {
            base
        },
        Key::Esc => ControlState { exit: true, ..base },
        Key::Other => base,
    }
}

/// One key press handled in auto mode: only `m` (to manual mode) and the
/// escape key act; the press is recorded, the modifiers are not read.
pub open spec fn auto_key_step(st: ControlState, k: KeyPress) -> ControlState {
    let base = ControlState { key_press: k, ..st };
    match k.code {
        Key::Char(c) => if c == 'm' {
            ControlState { mode: Mode::Manual, ..base }
        } else {
            base
        },
        Key::Esc => ControlState { exit: true, ..base },
        Key::Other => base,
    }
}

/// The random drift of one auto-mode frame: each angle moves by its own
/// whole-degree step (`2 * k` half-degrees), wrapped.
pub open spec fn auto_drift(st: ControlState, kx: int, ky: int, kz: int) -> ControlState {
    ControlState {
        ang: Angles {
            x: add_wrap(st.ang.x, 2 * kx),
            y: add_wrap(st.ang.y, 2 * ky),
            z: add_wrap(st.ang.z, 2 * kz),
        },
        ..st
    }
}

/// One whole frame of input handling, given the polled event and the three
/// random degree steps of an auto frame. In manual mode an event is handled
/// and nothing else happens; in auto mode an event may switch the mode or
/// request exit, and the angles then drift either way.
pub open spec fn handle_input_spec(
    st: ControlState,
    event: Option<KeyPress>,
    kx: int,
    ky: int,
    kz: int,
) -> ControlState {
    if st.mode == Mode::Manual {
        match event {
            Some(k) => manual_step(st, k),
            None => st,
        }
    } else {
        let st1 = match event {
            Some(k) => auto_key_step(st, k),
            None => st,
        };
        auto_drift(st1, kx, ky, kz)
    }
}

/// The state the controller starts in: auto mode, not exiting, all angles
/// zero, no key seen, no modifiers, manual step 2 half-degrees (1.0 degrees).
pub open spec fn initial_state() -> ControlState {
    ControlState {
        mode: Mode::Auto,
        exit: false,
        ang: zero_angles(),
        key_press: KeyPress { code: Key::Other, shift: false, alt: false },
        shift_down: false,
        alt_down: false,
        rotation_factor: 2i32,
    }
}

/// Relies on `rand::Rng::gen_range` on `rand::thread_rng()`: sampling from
/// the non-empty range `0..=2` panics never and returns a value the range
/// contains.
#[verifier::external_body]
fn random_axis_step() -> (r: u8)
    ensures
        r <= 2,
{
    rand::thread_rng().gen_range(0..=2)
}

/// Adds a signed step to an angle and wraps it back into `[0, 720)`.
pub fn wrap_angle(a: i32, d: i32) -> (r: i32)
    requires
        0 <= a < 720,
        -4 <= d <= 4,
    ensures
        r == add_wrap(a, d as int),
        0 <= r < 720,
{
    let t: i32 = a + d;
    if t >= 720 {
        t - 720
    } else if t < 0 {
        t + 720
    } else {
        t
    }
}

/// The manual rotation step that the modifier keys select, in half-degrees.
pub fn rotation_step(shift: bool, alt: bool) -> (r: i32)
    ensures
        r == step_half_degrees(shift, alt),
{
    if shift {
        if alt {
            2
        } else {
            1
        }
    } else if alt {
        4
    } else {
        2
    }
}

/// The cube demo's controller: the fixed edge list and the mutable mode,
/// orientation and input state.
pub struct Cube {
    pub lines: Vec<Edge>,
    pub state: ControlState,
}

impl Cube {
    /// Builds the controller: the twelve edges derived from the cube's
    /// corners, and the initial auto-mode state.
    pub fn new() -> (c: Cube)
        ensures
            c.lines@ == edge_seq(),
            c.state == initial_state(),
            wf_state(c.state),
    {
        Cube {
            lines: edge_list(),
            state: ControlState {
                mode: Mode::Auto,
                exit: false,
                ang: Angles { x: 0, y: 0, z: 0 },
                key_press: KeyPress { code: Key::Other, shift: false, alt: false },
                shift_down: false,
                alt_down: false,
                rotation_factor: 2,
            },
        }
    }

    /// Applies one key press under manual mode's key map.
    pub fn apply_manual_key(&mut self, k: KeyPress)
        requires
            wf_state(old(self).state),
        ensures
            final(self).lines@ == old(self).lines@,
            final(self).state == manual_step(old(self).state, k),
            wf_state(final(self).state),
    {
        let f: i32 = rotation_step(k.shift, k.alt);
        self.state.key_press = k;
        self.state.shift_down = k.shift;
        self.state.alt_down = k.alt;
        self.state.rotation_factor = f;
        match k.code {
            Key::Char(c) => {
                if c == 'w' {
                    self.state.ang.x = wrap_angle(self.state.ang.x, f);
                } else if c == 'a' {
                    self.state.ang.y = wrap_angle(self.state.ang.y, -f);
                } else if c == 's' {
                    self.state.ang.x = wrap_angle(self.state.ang.x, -f);
                } else if c == 'd' {
                    self.state.ang.y = wrap_angle(self.state.ang.y, f);
                } else if c == 'j' {
                    self.state.ang.z = wrap_angle(self.state.ang.z, f);
                } else if c == 'k' {
                    self.state.ang.z = wrap_angle(self.state.ang.z, -f);
                } else if c == 'r' {
                    self.state.ang = Angles { x: 0, y: 0, z: 0 };
                } else if c == 'm' {
                    self.state.mode = Mode::Auto;
                }
            },
            Key::Esc => {
                self.state.exit = true;
            },
            Key::Other => {},
        }
    }

    /// Applies one key press under auto mode's key map.
    pub fn apply_auto_key(&mut self, k: KeyPress)
        requires
            wf_state(old(self).state),
        ensures
            final(self).lines@ == old(self).lines@,
            final(self).state == auto_key_step(old(self).state, k),
            wf_state(final(self).state),
    {
        self.state.key_press = k;
        match k.code {
            Key::Char(c) => {
                if c == 'm' {
                    self.state.mode = Mode::Manual;
                }
            },
            Key::Esc => {
                self.state.exit = true;
            },
            Key::Other => {},
        }
    }

    /// Drifts each angle by its own whole-degree step, each at most 2
    /// degrees. Taking the steps as arguments keeps the drift checkable for
    /// every value the random source may hand back.
    pub fn advance_auto(&mut self, sx: u8, sy: u8, sz: u8)
        requires
            wf_state(old(self).state),
            sx <= 2,
            sy <= 2,
            sz <= 2,
        ensures
            final(self).lines@ == old(self).lines@,
            final(self).state == auto_drift(old(self).state, sx as int, sy as int, sz as int),
            wf_state(final(self).state),
    {
        self.state.ang.x = wrap_angle(self.state.ang.x, 2 * (sx as i32));
        self.state.ang.y = wrap_angle(self.state.ang.y, 2 * (sy as i32));
        self.state.ang.z = wrap_angle(self.state.ang.z, 2 * (sz as i32));
    }

    /// Handles one frame's input: the event the front end polled, if any.
    /// In manual mode the event is applied and nothing else changes; in
    /// auto mode the event may switch the mode or request exit, and each
    /// angle then drifts by a random whole-degree step from `{0, 1, 2}`.
    pub fn handle_input(&mut self, event: Option<KeyPress>)
        requires
            wf_state(old(self).state),
        ensures
            final(self).lines@ == old(self).lines@,
            wf_state(final(self).state),
            old(self).state.mode == Mode::Manual ==> final(self).state == handle_input_spec(
                old(self).state,
                event,
                0,
                0,
                0,
            ),
            old(self).state.mode == Mode::Auto ==> exists|kx: int, ky: int, kz: int|
                0 <= kx <= 2 && 0 <= ky <= 2 && 0 <= kz <= 2 && final(self).state
                    == handle_input_spec(old(self).state, event, kx, ky, kz),
    {
        match self.state.mode {
            Mode::Manual => {
                if let Some(k) = event {
                    self.apply_manual_key(k);
                }
            },
            Mode::Auto => {
                if let Some(k) = event {
                    self.apply_auto_key(k);
                }
                let sx = random_axis_step();
                let sy = random_axis_step();
                let sz = random_axis_step();
                self.advance_auto(sx, sy, sz);
                proof {
                    assert(self.state == handle_input_spec(
                        old(self).state,
                        event,
                        sx as int,
                        sy as int,
                        sz as int,
                    ));
                }
            },
        }
    }

    /// Whether the escape key has requested exit.
    pub fn should_exit(&self) -> (r: bool)
        ensures
            r == self.state.exit,
    {
        self.state.exit
    }
}

/// Law: the mode key toggles between the two modes — `m` under manual
/// handling hands control to auto mode, `m` under auto handling hands it to
/// manual mode — and the escape key requests exit from either mode.
pub proof fn lemma_mode_toggle(st: ControlState, k: KeyPress)
    ensures
        k.code == Key::Char('m') ==> manual_step(st, k).mode == Mode::Auto,
        k.code == Key::Char('m') ==> auto_key_step(st, k).mode == Mode::Manual,
        k.code == Key::Esc ==> manual_step(st, k).exit,
        k.code == Key::Esc ==> auto_key_step(st, k).exit,
{
}

/// Law: one auto-mode frame without a key event, starting from the start
/// state, leaves the mode and the exit flag alone and grows each axis by
/// exactly its own random whole-degree step — `2 * k` half-degrees for a
/// step of `k` degrees, with `k` drawn from `{0, 1, 2}`.
pub proof fn lemma_first_auto_frame(kx: int, ky: int, kz: int)
    requires
        0 <= kx <= 2,
        0 <= ky <= 2,
        0 <= kz <= 2,
    ensures
        handle_input_spec(initial_state(), None, kx, ky, kz).ang.x == 2 * kx,
        handle_input_spec(initial_state(), None, kx, ky, kz).ang.y == 2 * ky,
        handle_input_spec(initial_state(), None, kx, ky, kz).ang.z == 2 * kz,
        handle_input_spec(initial_state(), None, kx, ky, kz).mode == Mode::Auto,
        !handle_input_spec(initial_state(), None, kx, ky, kz).exit,
{
}

/// Wrapping a step up and then the same step down (or down and then up)
/// restores a well-formed angle.
proof fn lemma_add_wrap_cancel(x: i32, f: i32)
    requires
        0 <= x < 720,
        1 <= f <= 4,
    ensures
        add_wrap(add_wrap(x, f as int), -(f as int)) == x,
        add_wrap(add_wrap(x, -(f as int)), f as int) == x,
{
    if x + f < 720 {
        assert((x + f + 720) % 720 == x + f);
    } else {
        assert((x + f + 720) % 720 == x + f - 720);
    }
    if x - f >= 0 {
        assert((x - f + 720) % 720 == x - f);
    } else {
        assert((x - f + 720) % 720 == x - f + 720);
    }
}

/// Law: in manual mode a movement key and its opposite cancel. Pressing `w`
/// then `s` with the same modifiers restores all three angles, as do `a`
/// then `d` and `j` then `k`; and `r` always zeroes the angles.
pub proof fn lemma_opposite_keys_cancel(st: ControlState, shift: bool, alt: bool)
    requires
        wf_state(st),
    ensures
        manual_step(
            manual_step(st, KeyPress { code: Key::Char('w'), shift, alt }),
            KeyPress { code: Key::Char('s'), shift, alt },
        ).ang == st.ang,
        manual_step(
            manual_step(st, KeyPress { code: Key::Char('a'), shift, alt }),
            KeyPress { code: Key::Char('d'), shift, alt },
        ).ang == st.ang,
        manual_step(
            manual_step(st, KeyPress { code: Key::Char('j'), shift, alt }),
            KeyPress { code: Key::Char('k'), shift, alt },
        ).ang == st.ang,
        manual_step(st, KeyPress { code: Key::Char('r'), shift, alt }).ang == zero_angles(),
{
    let f = step_half_degrees(shift, alt);
    lemma_add_wrap_cancel(st.ang.x, f);
    lemma_add_wrap_cancel(st.ang.y, f);
    lemma_add_wrap_cancel(st.ang.z, f);
}

} // verus!
