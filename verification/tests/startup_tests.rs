use anim_pipeline::assets::get_texture_file_path;
use anim_pipeline::resize::SurfaceConfig;
use anim_pipeline::startup::StartupEvents;

#[test]
fn startup_replays_the_newest_usable_resize() {
    let mut events = StartupEvents::new();
    events.record_resize(800, 600);
    events.record_resize(1024, 768);
    // A minimized size is not worth replaying and does not clobber the
    // recorded one.
    events.record_resize(0, 0);
    events.record_redraw_request();
    let (resize, redraw) = events.drain();
    assert_eq!(resize, Some(SurfaceConfig { width: 1024, height: 768 }));
    assert!(redraw);
}

#[test]
fn startup_drain_replays_only_once() {
    let mut events = StartupEvents::new();
    events.record_resize(640, 480);
    events.drain();
    let (resize, redraw) = events.drain();
    assert_eq!(resize, None);
    assert!(!redraw);
}

#[test]
fn startup_with_no_events() {
    let mut events = StartupEvents::new();
    let (resize, redraw) = events.drain();
    assert_eq!(resize, None);
    assert!(!redraw);
}

#[test]
fn texture_path_joins_root_and_name() {
    assert_eq!(get_texture_file_path("assets", "happy-tree.png"), "assets/happy-tree.png");
    assert_eq!(get_texture_file_path("", "a.png"), "/a.png");
}
