use echo::input::{action_of, is_bound, Action, Button, InputSnapshot, PointerInput};
use echo::movement::{
    cursor_grab, debug_camera_info, debug_report, setup_camera_controller, to_degrees,
    CameraController, ClickWatcher, CursorOptions, DebugReport, DebugReporter, GrabMode, Player,
    Rotation, Transform, Vec3,
};
use echo::setup::setup_cursor_grab;

fn holding(buttons: &[Button]) -> InputSnapshot {
    InputSnapshot { pressed: buttons.to_vec(), pointer: PointerInput::Unavailable }
}

const FREE: CursorOptions = CursorOptions { grab_mode: GrabMode::Free, visible: true };
const CAPTURED: CursorOptions = CursorOptions { grab_mode: GrabMode::Locked, visible: false };

#[test]
fn every_button_drives_one_action() {
    let table = [
        (Button::KeyW, Action::Forward),
        (Button::KeyZ, Action::Forward),
        (Button::KeyS, Action::Backward),
        (Button::KeyA, Action::StrafeLeft),
        (Button::KeyQ, Action::StrafeLeft),
        (Button::KeyD, Action::StrafeRight),
        (Button::Space, Action::Ascend),
        (Button::ShiftLeft, Action::Descend),
        (Button::MouseLeft, Action::PrimaryClick),
        (Button::F1, Action::DebugTrigger),
    ];
    let actions = [
        Action::Forward,
        Action::Backward,
        Action::StrafeLeft,
        Action::StrafeRight,
        Action::Ascend,
        Action::Descend,
        Action::PrimaryClick,
        Action::DebugTrigger,
    ];
    for (button, action) in table {
        assert_eq!(action_of(button), action);
        for other in actions {
            assert_eq!(is_bound(other, button), other == action);
        }
    }
}

#[test]
fn a_snapshot_answers_for_buttons_and_actions() {
    let input = holding(&[Button::KeyZ, Button::KeyZ, Button::F1]);
    assert!(input.is_pressed(Button::KeyZ));
    assert!(input.is_pressed(Button::F1));
    assert!(!input.is_pressed(Button::KeyW));
    assert!(input.action_pressed(Action::Forward));
    assert!(input.action_pressed(Action::DebugTrigger));
    assert!(!input.action_pressed(Action::Backward));
    assert!(!input.action_pressed(Action::PrimaryClick));
    let idle = InputSnapshot::idle();
    assert!(idle.pressed.is_empty());
    assert_eq!(idle.pointer, PointerInput::Unavailable);
    assert!(!idle.action_pressed(Action::Forward));
}

#[test]
fn setup_captures_the_pointer() {
    let mut cursor = FREE;
    assert!(!cursor.is_captured());
    setup_cursor_grab(&mut cursor);
    assert_eq!(cursor, CAPTURED);
    assert!(cursor.is_captured());
}

#[test]
fn a_new_controller_is_level_with_default_parameters() {
    let mut cursor = CursorOptions { grab_mode: GrabMode::Confined, visible: true };
    let (player, controller) = setup_camera_controller(&mut cursor);
    assert_eq!(player, Player { speed: 5_000_000, sensitivity: 500_000 });
    assert_eq!(controller, CameraController { yaw: 0, pitch: 0 });
    assert_eq!(cursor, CAPTURED);
}

const LOST: [CursorOptions; 3] = [
    FREE,
    CursorOptions { grab_mode: GrabMode::Confined, visible: false },
    CursorOptions { grab_mode: GrabMode::Locked, visible: true },
];

#[test]
fn a_click_captures_the_pointer_again() {
    for lost in LOST {
        let mut cursor = lost;
        let mut watcher = ClickWatcher::default();
        assert_eq!(watcher, ClickWatcher { held: false });
        cursor_grab(&holding(&[Button::KeyW, Button::F1]), &mut watcher, &mut cursor);
        assert_eq!(cursor, lost);
        assert!(!watcher.held);
        cursor_grab(&holding(&[Button::MouseLeft]), &mut watcher, &mut cursor);
        assert_eq!(cursor, CAPTURED);
        assert!(watcher.held);
    }
}

#[test]
fn a_held_button_does_not_capture_a_pointer_that_was_freed_meanwhile() {
    for lost in LOST {
        let mut cursor = FREE;
        let mut watcher = ClickWatcher::default();
        let down = holding(&[Button::MouseLeft]);
        cursor_grab(&down, &mut watcher, &mut cursor);
        assert_eq!(cursor, CAPTURED);
        // the platform lets the pointer go while the button stays down
        cursor = lost;
        cursor_grab(&down, &mut watcher, &mut cursor);
        assert_eq!(cursor, lost);
        assert!(watcher.held);
        cursor_grab(&down, &mut watcher, &mut cursor);
        assert_eq!(cursor, lost);
        // letting the button go changes nothing; pressing it again captures
        cursor_grab(&InputSnapshot::idle(), &mut watcher, &mut cursor);
        assert_eq!(cursor, lost);
        assert!(!watcher.held);
        cursor_grab(&down, &mut watcher, &mut cursor);
        assert_eq!(cursor, CAPTURED);
    }
}

#[test]
fn a_button_that_was_down_before_does_not_capture() {
    let mut cursor = FREE;
    let mut watcher = ClickWatcher { held: true };
    cursor_grab(&holding(&[Button::MouseLeft]), &mut watcher, &mut cursor);
    assert_eq!(cursor, FREE);
    assert_eq!(watcher, ClickWatcher { held: true });
    cursor_grab(&holding(&[Button::KeyD]), &mut watcher, &mut cursor);
    assert_eq!(cursor, FREE);
    assert_eq!(watcher, ClickWatcher { held: false });
}

#[test]
fn capturing_twice_is_capturing_once() {
    let mut cursor = FREE;
    let mut watcher = ClickWatcher::default();
    cursor_grab(&holding(&[Button::MouseLeft]), &mut watcher, &mut cursor);
    let once = cursor;
    cursor_grab(&InputSnapshot::idle(), &mut watcher, &mut cursor);
    cursor_grab(&holding(&[Button::MouseLeft]), &mut watcher, &mut cursor);
    cursor.capture();
    setup_cursor_grab(&mut cursor);
    assert_eq!(cursor, once);
    assert_eq!(once, CAPTURED);
}

fn pose() -> (Transform, CameraController) {
    (
        Transform {
            translation: Vec3 { x: 1_000_000, y: 2_500_000, z: -3_000_000 },
            rotation: Rotation { yaw: 1_570_796, pitch: -1_470_796 },
        },
        CameraController { yaw: 1_570_796, pitch: -1_470_796 },
    )
}

#[test]
fn radians_become_degrees() {
    assert_eq!(to_degrees(0), 0);
    assert_eq!(to_degrees(1_000_000), 57_295_780);
    assert_eq!(to_degrees(1_570_796), 89_999_982);
    assert_eq!(to_degrees(-1_470_796), -84_270_404);
    assert_eq!(to_degrees(1), 57);
    assert_eq!(to_degrees(-1), -57);
    assert_eq!(to_degrees(i64::MAX), i64::MAX);
    assert_eq!(to_degrees(i64::MIN), i64::MIN);
    assert!((to_degrees(1_047_198) as f64 / 1e6 - 60.0).abs() < 1e-4);
}

#[test]
fn the_report_holds_the_position_and_the_angles_in_degrees() {
    let (transform, controller) = pose();
    let mut reporter = DebugReporter { held: false };
    let report = debug_camera_info(&holding(&[Button::F1]), &mut reporter, &transform, &controller);
    assert_eq!(
        report,
        Some(DebugReport {
            position: Vec3 { x: 1_000_000, y: 2_500_000, z: -3_000_000 },
            yaw_degrees: 89_999_982,
            pitch_degrees: -84_270_404,
        })
    );
    assert!(reporter.held);
}

#[test]
fn holding_the_trigger_reports_once() {
    let (transform, controller) = pose();
    let mut reporter = DebugReporter { held: false };
    let down = holding(&[Button::F1, Button::KeyW]);
    let up = holding(&[Button::KeyW]);
    let frames = [&up, &down, &down, &down, &up, &up, &down, &down];
    let reports: Vec<bool> = frames
        .iter()
        .map(|input| debug_camera_info(input, &mut reporter, &transform, &controller).is_some())
        .collect();
    assert_eq!(reports, vec![false, true, false, false, false, false, true, false]);
}

#[test]
fn a_trigger_that_was_down_before_does_not_report() {
    let (transform, controller) = pose();
    let mut reporter = DebugReporter { held: true };
    assert_eq!(debug_camera_info(&holding(&[Button::F1]), &mut reporter, &transform, &controller), None);
    assert!(reporter.held);
    assert_eq!(debug_camera_info(&InputSnapshot::idle(), &mut reporter, &transform, &controller), None);
    assert!(!reporter.held);
}

#[test]
fn a_new_reporter_has_not_seen_the_trigger() {
    let mut reporter = DebugReporter::default();
    assert_eq!(reporter, DebugReporter { held: false });
    assert!(!reporter.triggered(&holding(&[Button::KeyW])));
    assert!(reporter.triggered(&holding(&[Button::F1])));
    assert!(!reporter.triggered(&holding(&[Button::F1])));
    assert!(!reporter.triggered(&InputSnapshot::idle()));
    assert!(reporter.triggered(&holding(&[Button::F1])));
}

#[test]
fn a_report_reads_the_pose_and_nothing_else() {
    let (transform, controller) = pose();
    let report = debug_report(&transform, &controller);
    assert_eq!(report.position, transform.translation);
    assert_eq!(report.yaw_degrees, 89_999_982);
    assert_eq!(report.pitch_degrees, -84_270_404);
    assert_eq!(debug_report(&transform, &controller), report);
}
