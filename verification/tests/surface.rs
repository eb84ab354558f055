use twoyi_renderer::error::RendererError;
use twoyi_renderer::gralloc::FORMAT_RGBA_8888;
use twoyi_renderer::gralloc::GrallocManager;
use twoyi_renderer::gralloc::NativeSurface;

fn fresh_surface() -> NativeSurface {
    NativeSurface {
        valid: true,
        error_code: -22,
        locked: false,
        stride: 800,
        refs: 0,
        geometry: None,
        posted: 0,
    }
}

#[test]
fn new_rejects_a_null_window() {
    let mut surface = fresh_surface();
    let r = GrallocManager::new(&mut surface, 0, 800, 480);
    assert_eq!(r.err(), Some(RendererError::InvalidWindow));
    assert_eq!(surface.refs, 0);
}

#[test]
fn new_acquires_and_configures_rgba8888() {
    let mut surface = fresh_surface();
    let manager = GrallocManager::new(&mut surface, 0x1000, 800, 480).unwrap();
    assert_eq!(surface.refs, 1);
    assert_eq!(surface.geometry, Some((800, 480, FORMAT_RGBA_8888)));
    assert_eq!(manager.get_size(), (800, 480));
    assert_eq!(manager.get_format(), FORMAT_RGBA_8888);
}

#[test]
fn new_surfaces_the_host_code_and_releases_on_failure() {
    let mut surface = fresh_surface();
    surface.valid = false;
    let r = GrallocManager::new(&mut surface, 0x1000, 800, 480);
    assert_eq!(r.err(), Some(RendererError::ConfigurationFailed(-22)));
    assert_eq!(surface.refs, 0);
    assert_eq!(surface.geometry, None);
}

#[test]
fn set_size_reconfigures_geometry() {
    let mut surface = fresh_surface();
    let mut manager = GrallocManager::new(&mut surface, 0x1000, 800, 480).unwrap();
    manager.set_size(&mut surface, 640, 360).unwrap();
    assert_eq!(manager.get_size(), (640, 360));
    assert_eq!(surface.geometry, Some((640, 360, FORMAT_RGBA_8888)));
}

#[test]
fn lock_then_post_never_errors_after_configuration() {
    // With geometry configuration succeeded, the lock / unlock-and-post pair
    // goes through for any positive size, here twice in a row.
    let mut surface = fresh_surface();
    let manager = GrallocManager::new(&mut surface, 0x1000, 720, 1280).unwrap();
    for round in 0..2u64 {
        let buffer = manager.lock_buffer(&mut surface).unwrap();
        assert_eq!((buffer.width, buffer.height), (720, 1280));
        assert_eq!(buffer.stride, 800);
        assert_eq!(buffer.format, FORMAT_RGBA_8888);
        manager.unlock_and_post(&mut surface).unwrap();
        assert_eq!(surface.posted, round + 1);
    }
    assert!(!surface.locked);
}

#[test]
fn a_second_lock_before_unlock_fails() {
    let mut surface = fresh_surface();
    let manager = GrallocManager::new(&mut surface, 0x1000, 720, 1280).unwrap();
    manager.lock_buffer(&mut surface).unwrap();
    assert_eq!(
        manager.lock_buffer(&mut surface).err(),
        Some(RendererError::LockFailed(-22))
    );
}

#[test]
fn post_without_a_lock_fails() {
    let mut surface = fresh_surface();
    let manager = GrallocManager::new(&mut surface, 0x1000, 720, 1280).unwrap();
    assert_eq!(
        manager.unlock_and_post(&mut surface).err(),
        Some(RendererError::PresentFailed(-22))
    );
    assert_eq!(surface.posted, 0);
}

#[test]
fn release_gives_the_reference_back_exactly_once() {
    let mut surface = fresh_surface();
    let manager = GrallocManager::new(&mut surface, 0x1000, 720, 1280).unwrap();
    assert_eq!(surface.refs, 1);
    manager.release(&mut surface);
    assert_eq!(surface.refs, 0);
}
