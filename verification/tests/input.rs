use wireframe::input::{Controls, Motion, Push, Step};

fn still() -> Motion {
    Motion { x: Push::Rest, y: Push::Rest, z: Push::Rest, yaw: Push::Rest, pitch: Push::Rest }
}

#[test]
fn idle_controls_ask_for_nothing() {
    assert_eq!(Controls::idle().motion(), still());
    assert_eq!(Controls::idle().step(true), Step { motion: still(), show_normals: true });
    assert_eq!(Controls::idle().step(false), Step { motion: still(), show_normals: false });
}

#[test]
fn forward_is_towards_negative_z() {
    let c = Controls { forward: true, ..Controls::idle() };
    assert_eq!(c.motion(), Motion { z: Push::Negative, ..still() });
    let c = Controls { back: true, ..Controls::idle() };
    assert_eq!(c.motion(), Motion { z: Push::Positive, ..still() });
}

#[test]
fn right_and_up_are_positive() {
    let c = Controls { right: true, up: true, ..Controls::idle() };
    assert_eq!(c.motion(), Motion { x: Push::Positive, y: Push::Positive, ..still() });
    let c = Controls { left: true, down: true, ..Controls::idle() };
    assert_eq!(c.motion(), Motion { x: Push::Negative, y: Push::Negative, ..still() });
}

#[test]
fn turning_pushes_the_angles() {
    let c = Controls { yaw_left: true, pitch_down: true, ..Controls::idle() };
    assert_eq!(c.motion(), Motion { yaw: Push::Negative, pitch: Push::Negative, ..still() });
    let c = Controls { yaw_right: true, pitch_up: true, ..Controls::idle() };
    assert_eq!(c.motion(), Motion { yaw: Push::Positive, pitch: Push::Positive, ..still() });
}

#[test]
fn of_two_opposite_keys_one_decides() {
    let all = Controls {
        forward: true,
        back: true,
        left: true,
        right: true,
        up: true,
        down: true,
        yaw_left: true,
        yaw_right: true,
        pitch_up: true,
        pitch_down: true,
        toggle_normals: false,
    };
    assert_eq!(
        all.motion(),
        Motion {
            x: Push::Negative,
            y: Push::Negative,
            z: Push::Positive,
            yaw: Push::Positive,
            pitch: Push::Positive,
        }
    );
}

#[test]
fn toggle_flips_the_display_of_normals() {
    let c = Controls { toggle_normals: true, ..Controls::idle() };
    assert!(c.step(false).show_normals);
    assert!(!c.step(true).show_normals);
    assert!(!c.step(c.step(false).show_normals).show_normals);
}

#[test]
fn toggle_does_not_move_the_camera() {
    let c = Controls { toggle_normals: true, ..Controls::idle() };
    assert_eq!(c.step(false).motion, still());
}

#[test]
fn step_carries_the_motion() {
    let c = Controls { forward: true, left: true, ..Controls::idle() };
    assert_eq!(
        c.step(true),
        Step { motion: Motion { x: Push::Negative, z: Push::Negative, ..still() }, show_normals: true }
    );
}
