use anim_pipeline::resize::ResizeAdapter;
use anim_pipeline::resize::SurfaceConfig;

#[test]
fn resize_apply_is_idempotent() {
    let mut adapter = ResizeAdapter::new(800, 600);
    adapter.on_resize(1024, 768);
    // The first application reconfigures once.
    assert_eq!(
        adapter.apply_if_dirty(),
        Some(SurfaceConfig { width: 1024, height: 768 })
    );
    // A second application with no intervening resize is a no-op.
    assert_eq!(adapter.apply_if_dirty(), None);
    assert_eq!(
        adapter.configured_size(),
        SurfaceConfig { width: 1024, height: 768 }
    );
}

#[test]
fn resize_coalesces_a_burst_of_notifications() {
    let mut adapter = ResizeAdapter::new(800, 600);
    adapter.on_resize(801, 600);
    adapter.on_resize(900, 650);
    adapter.on_resize(1024, 768);
    // Only the newest size is applied, in a single reconfiguration.
    assert_eq!(
        adapter.apply_if_dirty(),
        Some(SurfaceConfig { width: 1024, height: 768 })
    );
    assert_eq!(adapter.apply_if_dirty(), None);
}

#[test]
fn resize_back_to_the_configured_size_cancels() {
    let mut adapter = ResizeAdapter::new(800, 600);
    adapter.on_resize(1024, 768);
    adapter.on_resize(800, 600);
    assert_eq!(adapter.apply_if_dirty(), None);
    assert_eq!(adapter.configured_size(), SurfaceConfig { width: 800, height: 600 });
}

#[test]
fn resize_same_size_notification_is_ignored() {
    let mut adapter = ResizeAdapter::new(800, 600);
    adapter.on_resize(800, 600);
    assert_eq!(adapter.apply_if_dirty(), None);
}

#[test]
fn resize_reports_the_latest_size() {
    let mut adapter = ResizeAdapter::new(800, 600);
    adapter.on_resize(0, 0);
    // A zero dimension marks a minimized window; nothing was applied yet.
    assert_eq!(adapter.latest_size(), SurfaceConfig { width: 0, height: 0 });
    assert_eq!(adapter.configured_size(), SurfaceConfig { width: 800, height: 600 });
}
