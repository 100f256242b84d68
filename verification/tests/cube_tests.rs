use cube_demo::cube::Cube;
use cube_demo::cube::Key;
use cube_demo::cube::KeyPress;
use cube_demo::cube::Mode;

fn plain(c: char) -> KeyPress {
    KeyPress { code: Key::Char(c), shift: false, alt: false }
}

fn manual_cube() -> Cube {
    let mut cube = Cube::new();
    cube.apply_auto_key(plain('m'));
    assert_eq!(cube.state.mode, Mode::Manual);
    cube
}

#[test]
fn starts_in_auto_with_zero_angles() {
    let cube = Cube::new();
    assert_eq!(cube.state.mode, Mode::Auto);
    assert!(!cube.state.exit);
    assert_eq!(cube.state.ang.x, 0);
    assert_eq!(cube.state.ang.y, 0);
    assert_eq!(cube.state.ang.z, 0);
    assert_eq!(cube.state.rotation_factor, 2);
    assert_eq!(cube.lines.len(), 12);
}

#[test]
fn w_then_s_returns_x_to_zero() {
    let mut cube = manual_cube();
    cube.apply_manual_key(plain('w'));
    // One unmodified step is 1.0 degrees: 2 half-degrees.
    assert_eq!(cube.state.ang.x, 2);
    cube.apply_manual_key(plain('s'));
    assert_eq!(cube.state.ang.x, 0);
}

#[test]
fn opposite_keys_cancel_on_all_axes() {
    let mut cube = manual_cube();
    cube.apply_manual_key(plain('a'));
    cube.apply_manual_key(plain('d'));
    cube.apply_manual_key(plain('j'));
    cube.apply_manual_key(plain('k'));
    assert_eq!(cube.state.ang.x, 0);
    assert_eq!(cube.state.ang.y, 0);
    assert_eq!(cube.state.ang.z, 0);
}

#[test]
fn reset_zeroes_all_angles() {
    let mut cube = manual_cube();
    cube.apply_manual_key(plain('w'));
    cube.apply_manual_key(plain('a'));
    cube.apply_manual_key(plain('j'));
    assert!(cube.state.ang.x != 0 || cube.state.ang.y != 0 || cube.state.ang.z != 0);
    cube.apply_manual_key(plain('r'));
    assert_eq!(cube.state.ang.x, 0);
    assert_eq!(cube.state.ang.y, 0);
    assert_eq!(cube.state.ang.z, 0);
}

#[test]
fn modifier_step_sizes() {
    // Shift+Alt: 1.0 degrees, i.e. 2 half-degrees.
    let mut cube = manual_cube();
    cube.apply_manual_key(KeyPress { code: Key::Char('w'), shift: true, alt: true });
    assert_eq!(cube.state.ang.x, 2);
    assert_eq!(cube.state.rotation_factor, 2);

    // Shift alone: 0.5 degrees, i.e. 1 half-degree.
    let mut cube = manual_cube();
    cube.apply_manual_key(KeyPress { code: Key::Char('w'), shift: true, alt: false });
    assert_eq!(cube.state.ang.x, 1);
    assert_eq!(cube.state.rotation_factor, 1);

    // Alt alone: 2.0 degrees, i.e. 4 half-degrees.
    let mut cube = manual_cube();
    cube.apply_manual_key(KeyPress { code: Key::Char('w'), shift: false, alt: true });
    assert_eq!(cube.state.ang.x, 4);
    assert_eq!(cube.state.rotation_factor, 4);

    // Neither: 1.0 degrees, i.e. 2 half-degrees.
    let mut cube = manual_cube();
    cube.apply_manual_key(KeyPress { code: Key::Char('w'), shift: false, alt: false });
    assert_eq!(cube.state.ang.x, 2);
    assert_eq!(cube.state.rotation_factor, 2);
}

#[test]
fn m_toggles_between_modes() {
    let mut cube = Cube::new();
    assert_eq!(cube.state.mode, Mode::Auto);
    cube.apply_auto_key(plain('m'));
    assert_eq!(cube.state.mode, Mode::Manual);
    cube.apply_manual_key(plain('m'));
    assert_eq!(cube.state.mode, Mode::Auto);
}

#[test]
fn escape_requests_exit_from_auto() {
    let mut cube = Cube::new();
    cube.apply_auto_key(KeyPress { code: Key::Esc, shift: false, alt: false });
    assert!(cube.state.exit);
    assert!(cube.should_exit());
}

#[test]
fn escape_requests_exit_from_manual() {
    let mut cube = manual_cube();
    cube.apply_manual_key(KeyPress { code: Key::Esc, shift: false, alt: false });
    assert!(cube.state.exit);
    assert!(cube.should_exit());
}

#[test]
fn unmapped_key_moves_nothing() {
    let mut cube = manual_cube();
    cube.apply_manual_key(KeyPress { code: Key::Char('q'), shift: true, alt: false });
    assert_eq!(cube.state.ang.x, 0);
    assert_eq!(cube.state.ang.y, 0);
    assert_eq!(cube.state.ang.z, 0);
    assert_eq!(cube.state.mode, Mode::Manual);
    // The press and its modifiers are still recorded.
    assert!(cube.state.shift_down);
    assert!(!cube.state.alt_down);
    assert_eq!(cube.state.rotation_factor, 1);
}

#[test]
fn angles_wrap_below_zero() {
    let mut cube = manual_cube();
    cube.apply_manual_key(plain('s'));
    // 0 minus 1.0 degrees wraps to 359.0 degrees: 718 half-degrees.
    assert_eq!(cube.state.ang.x, 718);
    cube.apply_manual_key(plain('w'));
    assert_eq!(cube.state.ang.x, 0);
}

#[test]
fn auto_drift_with_given_steps() {
    let mut cube = Cube::new();
    cube.advance_auto(0, 1, 2);
    assert_eq!(cube.state.ang.x, 0);
    assert_eq!(cube.state.ang.y, 2);
    assert_eq!(cube.state.ang.z, 4);
}

#[test]
fn auto_frame_drifts_each_axis_by_small_whole_degrees() {
    // One auto frame without an event: each angle grows by a random whole
    // degree from {0, 1, 2} — 0, 2 or 4 half-degrees.
    for _ in 0..50 {
        let mut cube = Cube::new();
        cube.handle_input(None);
        assert_eq!(cube.state.mode, Mode::Auto);
        assert!(!cube.state.exit);
        for d in [cube.state.ang.x, cube.state.ang.y, cube.state.ang.z] {
            assert!(d == 0 || d == 2 || d == 4);
        }
    }
}

#[test]
fn manual_frame_applies_only_the_event() {
    let mut cube = manual_cube();
    cube.handle_input(Some(plain('w')));
    assert_eq!(cube.state.ang.x, 2);
    assert_eq!(cube.state.ang.y, 0);
    assert_eq!(cube.state.ang.z, 0);
    cube.handle_input(None);
    // No event in manual mode: nothing moves.
    assert_eq!(cube.state.ang.x, 2);
    assert_eq!(cube.state.ang.y, 0);
    assert_eq!(cube.state.ang.z, 0);
}

#[test]
fn auto_frame_handles_mode_key_and_still_drifts() {
    let mut cube = Cube::new();
    cube.handle_input(Some(plain('m')));
    // The frame entered in auto mode, so the drift of that frame still ran.
    assert_eq!(cube.state.mode, Mode::Manual);
    for d in [cube.state.ang.x, cube.state.ang.y, cube.state.ang.z] {
        assert!(d == 0 || d == 2 || d == 4);
    }
}
