use character_motion::camera::{
    corrected_pitch, pitch_clamp_factor, CameraFrame, CameraMotionSystem, CameraStep, EulerAngles,
};
use character_motion::input::{EventLog, InputEvent};

const DT: u32 = 16_000;

fn rig_with(events: Vec<InputEvent>) -> (CameraMotionSystem, EventLog) {
    let mut log = EventLog::new();
    let mut rig = CameraMotionSystem::new();
    rig.setup(&log);
    for e in events {
        log.push(e);
    }
    (rig, log)
}

fn level() -> EulerAngles {
    EulerAngles { pitch: 0, roll: 0 }
}

#[test]
fn mouse_motion_gives_scaled_steps() {
    let (mut rig, log) = rig_with(vec![InputEvent::MouseMoved { delta_x: 10_000, delta_y: 5_000 }]);
    let frame = rig.run(&log, DT, &[level()]);
    // 5 px * 0.2 * 0.016 s = 0.016 rad of pitch; -10 px gives -0.032 rad of yaw.
    assert_eq!(
        frame,
        CameraFrame { hide_cursor: true, step: Some(CameraStep { pitch: 16_000, yaw: -32_000 }) }
    );
}

#[test]
fn first_motion_of_a_tick_wins() {
    let (mut rig, log) = rig_with(vec![
        InputEvent::ActionPressed("Jump".to_string()),
        InputEvent::MouseMoved { delta_x: 0, delta_y: 5_000 },
        InputEvent::MouseMoved { delta_x: 99_000, delta_y: -99_000 },
    ]);
    let frame = rig.run(&log, DT, &[level()]);
    assert_eq!(frame.step, Some(CameraStep { pitch: 16_000, yaw: 0 }));
    // The skipped motion was read too: the next tick sees nothing.
    let frame = rig.run(&log, DT, &[level()]);
    assert_eq!(frame.step, Some(CameraStep { pitch: 0, yaw: 0 }));
}

#[test]
fn no_boom_means_no_step_but_cursor_hidden() {
    let (mut rig, log) = rig_with(vec![InputEvent::MouseMoved { delta_x: 1_000, delta_y: 1_000 }]);
    let frame = rig.run(&log, DT, &[]);
    assert_eq!(frame, CameraFrame { hide_cursor: true, step: None });
}

#[test]
fn only_first_boom_is_used() {
    let (mut rig, log) = rig_with(vec![InputEvent::MouseMoved { delta_x: 0, delta_y: 5_000 }]);
    let far_up = EulerAngles { pitch: 30_000, roll: 0 };
    let frame = rig.run(&log, DT, &[level(), far_up]);
    assert_eq!(frame.step, Some(CameraStep { pitch: 16_000, yaw: 0 }));
}

#[test]
fn pitch_past_upper_bound_blocks_further_up() {
    let past = EulerAngles { pitch: 20_001, roll: 0 };
    assert_eq!(pitch_clamp_factor(&past, 1_000), 0);
    assert_eq!(pitch_clamp_factor(&past, -1_000), 1);
    let (mut rig, log) = rig_with(vec![InputEvent::MouseMoved { delta_x: 0, delta_y: 5_000 }]);
    let frame = rig.run(&log, DT, &[past]);
    assert_eq!(frame.step, Some(CameraStep { pitch: 0, yaw: 0 }));
    let (mut rig, log) = rig_with(vec![InputEvent::MouseMoved { delta_x: 0, delta_y: -5_000 }]);
    let frame = rig.run(&log, DT, &[past]);
    assert_eq!(frame.step, Some(CameraStep { pitch: -16_000, yaw: 0 }));
}

#[test]
fn pitch_past_lower_bound_blocks_further_down() {
    let past = EulerAngles { pitch: -25_000, roll: 0 };
    assert_eq!(pitch_clamp_factor(&past, -1), 0);
    assert_eq!(pitch_clamp_factor(&past, 1), 1);
}

#[test]
fn pitch_on_band_edge_still_moves() {
    let edge = EulerAngles { pitch: 20_000, roll: 0 };
    assert_eq!(pitch_clamp_factor(&edge, 1_000), 1);
}

#[test]
fn roll_beyond_right_angle_mirrors_pitch() {
    assert_eq!(corrected_pitch(&EulerAngles { pitch: 165_000, roll: 180_000 }), -15_000);
    assert_eq!(corrected_pitch(&EulerAngles { pitch: -150_000, roll: -100_000 }), 30_000);
    assert_eq!(corrected_pitch(&EulerAngles { pitch: 165_000, roll: 90_000 }), 165_000);
    // Mirrored into the band: not clamped although the raw pitch is far out.
    assert_eq!(pitch_clamp_factor(&EulerAngles { pitch: 165_000, roll: 180_000 }, 1_000), 1);
    // Mirrored out of the band on the upper side.
    assert_eq!(pitch_clamp_factor(&EulerAngles { pitch: -150_000, roll: -100_000 }, 1_000), 0);
    assert_eq!(pitch_clamp_factor(&EulerAngles { pitch: -150_000, roll: -100_000 }, -1_000), 1);
}
