use anim_pipeline::camera::CameraController;
use anim_pipeline::camera::CameraKey;

#[test]
fn camera_starts_with_no_key_held() {
    let c = CameraController::new();
    assert!(!c.is_up_pressed);
    assert!(!c.is_down_pressed);
    assert!(!c.is_forward_pressed);
    assert!(!c.is_backward_pressed);
    assert!(!c.is_left_pressed);
    assert!(!c.is_right_pressed);
}

#[test]
fn camera_tracks_press_and_release() {
    let mut c = CameraController::new();
    assert!(c.process_events(CameraKey::KeyW, true));
    assert!(c.is_forward_pressed);
    assert!(c.process_events(CameraKey::KeyW, false));
    assert!(!c.is_forward_pressed);
}

#[test]
fn camera_arrows_alias_the_letter_keys() {
    let mut c = CameraController::new();
    assert!(c.process_events(CameraKey::ArrowUp, true));
    assert!(c.is_forward_pressed);
    assert!(c.process_events(CameraKey::ArrowLeft, true));
    assert!(c.is_left_pressed);
    assert!(c.process_events(CameraKey::ArrowDown, true));
    assert!(c.is_backward_pressed);
    assert!(c.process_events(CameraKey::ArrowRight, true));
    assert!(c.is_right_pressed);
}

#[test]
fn camera_vertical_keys() {
    let mut c = CameraController::new();
    assert!(c.process_events(CameraKey::Space, true));
    assert!(c.is_up_pressed);
    assert!(c.process_events(CameraKey::ShiftLeft, true));
    assert!(c.is_down_pressed);
}

#[test]
fn camera_ignores_unhandled_keys() {
    let mut c = CameraController::new();
    assert!(!c.process_events(CameraKey::Other, true));
    let fresh = CameraController::new();
    assert_eq!(c, fresh);
}
