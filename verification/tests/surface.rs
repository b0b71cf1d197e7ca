use std::time::Duration;
use voxel_runtime::camera::CameraController;
use voxel_runtime::renderer::{classify, ErrorClass, Renderer, SurfaceConfig, SurfaceError};

#[test]
fn resize_stores_exactly_the_given_size() {
    let mut r = Renderer::new(640, 480);
    let req = r.resize(1234, 567);
    assert_eq!((r.width, r.height), (1234, 567));
    assert_eq!(req, Some(SurfaceConfig { width: 1234, height: 567 }));
}

#[test]
fn zero_dimension_resize_issues_no_request() {
    let mut r = Renderer::new(640, 480);
    assert_eq!(r.resize(0, 480), None);
    assert_eq!((r.width, r.height), (0, 480));
    assert_eq!(r.resize(640, 0), None);
    assert_eq!((r.width, r.height), (640, 0));
    assert_eq!(r.resize(0, 0), None);
}

#[test]
fn reconfigure_request_uses_stored_size() {
    let mut r = Renderer::new(800, 600);
    assert_eq!(
        r.reconfigure_request(),
        Some(SurfaceConfig { width: 800, height: 600 })
    );
    r.resize(0, 600);
    assert_eq!(r.reconfigure_request(), None);
}

#[test]
fn error_classification_is_the_recovery_policy() {
    assert_eq!(classify(SurfaceError::Lost), ErrorClass::RecoverableSurfaceState);
    assert_eq!(classify(SurfaceError::Outdated), ErrorClass::RecoverableSurfaceState);
    assert_eq!(classify(SurfaceError::OutOfMemory), ErrorClass::FatalResourceExhaustion);
    assert_eq!(classify(SurfaceError::Timeout), ErrorClass::IgnorableTransient);
    assert_eq!(classify(SurfaceError::Other), ErrorClass::IgnorableTransient);
}

#[test]
fn update_consumes_camera_and_keeps_size() {
    let mut r = Renderer::new(640, 480);
    let mut c = CameraController::new();
    c.process_motion(10, -20);
    let delta = r.update(Duration::from_millis(16), &mut c);
    assert_eq!(delta, (10, -20));
    assert_eq!((c.dx, c.dy), (0, 0));
    assert_eq!((r.width, r.height), (640, 480));
}

#[test]
fn motion_accumulates_additively() {
    let mut split = CameraController::new();
    split.process_motion(1, 2);
    split.process_motion(3, -1);
    let mut combined = CameraController::new();
    combined.process_motion(4, 1);
    assert_eq!((split.dx, split.dy), (combined.dx, combined.dy));
    assert_eq!(split.consume(), (4, 1));
    assert_eq!(split.consume(), (0, 0));
}
