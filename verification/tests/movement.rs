use echo::input::{Button, InputSnapshot, PointerInput};
use echo::movement::{
    move_camera, movement_axes, Axes, Heading, Player, Rotation, Transform, Vec3,
};

fn at_origin() -> Transform {
    Transform {
        translation: Vec3 { x: 0, y: 0, z: 0 },
        rotation: Rotation { yaw: 0, pitch: 0 },
    }
}

fn holding(buttons: &[Button]) -> InputSnapshot {
    InputSnapshot { pressed: buttons.to_vec(), pointer: PointerInput::Unavailable }
}

fn heading_of(yaw: f64) -> Heading {
    Heading {
        sin: (yaw.sin() * 1_000_000.0).round() as i64,
        cos: (yaw.cos() * 1_000_000.0).round() as i64,
    }
}

fn length(v: Vec3) -> f64 {
    let x = v.x as f64;
    let y = v.y as f64;
    let z = v.z as f64;
    (x * x + y * y + z * z).sqrt() / 1_000_000.0
}

#[test]
fn test_move_camera() {
    let camera_transform = at_origin();
    let mut transform = camera_transform;
    let player = Player::default();
    let input = holding(&[Button::KeyW]);

    // one frame of a tenth of a second
    move_camera(100_000, &input, &mut transform, &player, &Heading::ahead());

    assert_ne!(transform.translation, camera_transform.translation, "Camera should have moved");
}

#[test]
fn default_player_has_speed_five_and_sensitivity_one_half() {
    let player = Player::default();
    assert_eq!(player.speed, 5_000_000);
    assert_eq!(player.sensitivity, 500_000);
}

#[test]
fn forward_moves_along_the_heading_by_speed_times_time() {
    let mut transform = at_origin();
    move_camera(100_000, &holding(&[Button::KeyW]), &mut transform, &Player::default(), &Heading::ahead());
    assert_eq!(transform.translation, Vec3 { x: 0, y: 0, z: 500_000 });
    assert_eq!(transform.rotation, Rotation { yaw: 0, pitch: 0 });
}

#[test]
fn ten_steps_forward_cover_five_units() {
    let mut transform = at_origin();
    let player = Player { speed: 5_000_000, sensitivity: 500_000 };
    let input = holding(&[Button::KeyW]);
    for _ in 0..10 {
        move_camera(100_000, &input, &mut transform, &player, &Heading::ahead());
    }
    assert_eq!(transform.translation, Vec3 { x: 0, y: 0, z: 5_000_000 });
    assert!((length(transform.translation) - 5.0).abs() < 1e-6);
}

#[test]
fn no_keys_leave_the_position_whatever_the_frame_time() {
    let start = Transform {
        translation: Vec3 { x: 1_500_000, y: -2_000_000, z: 7 },
        rotation: Rotation { yaw: 3, pitch: 4 },
    };
    for dt in [0u32, 1, 16_667, 100_000, 1_000_000, u32::MAX] {
        let mut transform = start;
        move_camera(dt, &InputSnapshot::idle(), &mut transform, &Player::default(), &heading_of(0.7));
        assert_eq!(transform, start);
    }
}

#[test]
fn a_frame_of_no_time_moves_nothing() {
    let mut transform = at_origin();
    move_camera(0, &holding(&[Button::KeyW, Button::KeyD]), &mut transform, &Player::default(), &Heading::ahead());
    assert_eq!(transform, at_origin());
}

#[test]
fn opposite_keys_cancel() {
    let mut transform = at_origin();
    let input = holding(&[Button::KeyW, Button::KeyS, Button::KeyA, Button::KeyD, Button::Space, Button::ShiftLeft]);
    assert_eq!(movement_axes(&input), Axes { forward: 0, right: 0, up: 0 });
    move_camera(100_000, &input, &mut transform, &Player::default(), &heading_of(1.1));
    assert_eq!(transform, at_origin());
}

#[test]
fn both_layouts_drive_the_same_axes() {
    assert_eq!(movement_axes(&holding(&[Button::KeyW])), movement_axes(&holding(&[Button::KeyZ])));
    assert_eq!(movement_axes(&holding(&[Button::KeyA])), movement_axes(&holding(&[Button::KeyQ])));
    assert_eq!(movement_axes(&holding(&[Button::KeyW, Button::KeyZ])), Axes { forward: 1, right: 0, up: 0 });
    assert_eq!(movement_axes(&holding(&[Button::KeyQ, Button::KeyA])), Axes { forward: 0, right: -1, up: 0 });
}

#[test]
fn each_key_pushes_its_axis() {
    assert_eq!(movement_axes(&holding(&[Button::KeyS])), Axes { forward: -1, right: 0, up: 0 });
    assert_eq!(movement_axes(&holding(&[Button::KeyD])), Axes { forward: 0, right: 1, up: 0 });
    assert_eq!(movement_axes(&holding(&[Button::Space])), Axes { forward: 0, right: 0, up: 1 });
    assert_eq!(movement_axes(&holding(&[Button::ShiftLeft])), Axes { forward: 0, right: 0, up: -1 });
    assert_eq!(movement_axes(&holding(&[Button::F1, Button::MouseLeft])), Axes { forward: 0, right: 0, up: 0 });
}

#[test]
fn strafing_follows_the_right_vector() {
    let mut transform = at_origin();
    move_camera(100_000, &holding(&[Button::KeyD]), &mut transform, &Player::default(), &Heading::ahead());
    assert_eq!(transform.translation, Vec3 { x: 500_000, y: 0, z: 0 });
    let mut transform = at_origin();
    move_camera(100_000, &holding(&[Button::KeyQ]), &mut transform, &Player::default(), &Heading::ahead());
    assert_eq!(transform.translation, Vec3 { x: -500_000, y: 0, z: 0 });
}

#[test]
fn flying_moves_along_the_vertical() {
    let mut transform = at_origin();
    move_camera(200_000, &holding(&[Button::Space]), &mut transform, &Player::default(), &heading_of(2.0));
    assert_eq!(transform.translation, Vec3 { x: 0, y: 1_000_000, z: 0 });
    move_camera(100_000, &holding(&[Button::ShiftLeft]), &mut transform, &Player::default(), &heading_of(2.0));
    assert_eq!(transform.translation, Vec3 { x: 0, y: 500_000, z: 0 });
}

#[test]
fn diagonal_movement_is_not_faster() {
    let mut transform = at_origin();
    move_camera(100_000, &holding(&[Button::KeyW, Button::KeyD]), &mut transform, &Player::default(), &Heading::ahead());
    assert_eq!(transform.translation, Vec3 { x: 353_553, y: 0, z: 353_553 });
    assert!((length(transform.translation) - 0.5).abs() < 2e-6);

    let mut transform = at_origin();
    move_camera(100_000, &holding(&[Button::KeyW, Button::KeyD, Button::Space]), &mut transform, &Player::default(), &Heading::ahead());
    assert_eq!(transform.translation, Vec3 { x: 288_675, y: 288_675, z: 288_675 });
    assert!((length(transform.translation) - 0.5).abs() < 2e-6);
}

#[test]
fn every_direction_has_the_same_speed() {
    let keys = [
        vec![Button::KeyW],
        vec![Button::KeyW, Button::KeyD],
        vec![Button::KeyS, Button::KeyA],
        vec![Button::KeyD, Button::Space],
        vec![Button::KeyZ, Button::KeyQ, Button::ShiftLeft],
    ];
    for step in 0..63 {
        let yaw = step as f64 * 0.1 - 3.1;
        for held in keys.iter() {
            let mut transform = at_origin();
            move_camera(16_667, &holding(held), &mut transform, &Player::default(), &heading_of(yaw));
            let want = 5.0 * 0.016667;
            assert!((length(transform.translation) - want).abs() < 3e-6, "yaw {yaw}");
        }
    }
}

#[test]
fn movement_follows_the_heading() {
    let mut transform = at_origin();
    let heading = heading_of(0.7);
    assert_eq!(heading, Heading { sin: 644_218, cos: 764_842 });
    move_camera(100_000, &holding(&[Button::KeyW]), &mut transform, &Player::default(), &heading);
    assert_eq!(transform.translation, Vec3 { x: 322_109, y: 0, z: 382_421 });
    let mut transform = at_origin();
    move_camera(100_000, &holding(&[Button::KeyW, Button::KeyD]), &mut transform, &Player::default(), &heading);
    assert_eq!(transform.translation, Vec3 { x: 498_178, y: 0, z: 42_647 });
    let mut transform = at_origin();
    move_camera(16_667, &holding(&[Button::KeyS, Button::KeyA, Button::ShiftLeft]), &mut transform, &Player::default(), &heading);
    assert_eq!(transform.translation, Vec3 { x: -67_794, y: -48_113, z: -5_803 });
}

#[test]
fn a_heading_that_is_not_of_unit_length_moves_nothing() {
    for heading in [
        Heading { sin: 0, cos: 0 },
        Heading { sin: 500_000, cos: 500_000 },
        Heading { sin: 1_000_000, cos: 1_000_000 },
        Heading { sin: i64::MAX, cos: i64::MIN },
        Heading { sin: 1_000_002, cos: 0 },
        Heading { sin: 0, cos: -999_997 },
    ] {
        assert!(!heading.is_valid());
        let mut transform = at_origin();
        move_camera(100_000, &holding(&[Button::KeyW, Button::Space]), &mut transform, &Player::default(), &heading);
        assert_eq!(transform, at_origin());
    }
    assert!(Heading::ahead().is_valid());
    assert!(Heading { sin: 1_000_001, cos: 0 }.is_valid());
    assert!(Heading { sin: 0, cos: -999_998 }.is_valid());
    assert!(Heading { sin: -707_107, cos: 707_107 }.is_valid());
}

#[test]
fn movement_stops_at_the_end_of_the_number_range() {
    let mut transform = Transform {
        translation: Vec3 { x: 0, y: i64::MAX - 10, z: i64::MIN + 10 },
        rotation: Rotation { yaw: 0, pitch: 0 },
    };
    let player = Player { speed: i64::MAX, sensitivity: 0 };
    move_camera(u32::MAX, &holding(&[Button::Space, Button::KeyS]), &mut transform, &player, &Heading::ahead());
    assert_eq!(transform.translation, Vec3 { x: 0, y: i64::MAX, z: i64::MIN });
}

#[test]
fn a_negative_speed_moves_backwards() {
    let mut transform = at_origin();
    let player = Player { speed: -2_000_000, sensitivity: 0 };
    move_camera(250_000, &holding(&[Button::KeyW]), &mut transform, &player, &Heading::ahead());
    assert_eq!(transform.translation, Vec3 { x: 0, y: 0, z: -500_000 });
}

#[test]
fn the_pitch_does_not_change_the_movement() {
    let heading = heading_of(-1.3);
    let input = holding(&[Button::KeyW, Button::KeyA]);
    let mut level = at_origin();
    move_camera(33_333, &input, &mut level, &Player::default(), &heading);
    for pitch in [-1_470_796i64, -1, 1, 700_000, 1_470_796] {
        let mut tilted = Transform {
            translation: Vec3 { x: 0, y: 0, z: 0 },
            rotation: Rotation { yaw: -1_300_000, pitch },
        };
        move_camera(33_333, &input, &mut tilted, &Player::default(), &heading);
        assert_eq!(tilted.translation, level.translation);
        assert_eq!(tilted.translation.y, 0);
        assert_eq!(tilted.rotation, Rotation { yaw: -1_300_000, pitch });
    }
}

#[test]
fn a_quarter_turn_swaps_forward_and_right() {
    let heading = heading_of(std::f64::consts::FRAC_PI_2);
    assert_eq!(heading, Heading { sin: 1_000_000, cos: 0 });
    let mut transform = at_origin();
    move_camera(100_000, &holding(&[Button::KeyW]), &mut transform, &Player::default(), &heading);
    assert_eq!(transform.translation, Vec3 { x: 500_000, y: 0, z: 0 });
    let mut transform = at_origin();
    move_camera(100_000, &holding(&[Button::KeyD]), &mut transform, &Player::default(), &heading);
    assert_eq!(transform.translation, Vec3 { x: 0, y: 0, z: -500_000 });
}
