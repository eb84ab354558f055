use twoyi_renderer::endpoint::Endpoint;
use twoyi_renderer::error::RendererError;
use twoyi_renderer::pipe::PipeDevice;
use twoyi_renderer::renderer::Renderer;
use twoyi_renderer::renderer::destroy_subwindow;
use twoyi_renderer::renderer::remove_window;
use twoyi_renderer::renderer::repaint_display;
use twoyi_renderer::renderer::reset_window;
use twoyi_renderer::renderer::set_native_window;
use twoyi_renderer::renderer::start_renderer;

fn le(words: &[i32]) -> Vec<u8> {
    let mut out = Vec::new();
    for w in words {
        out.extend_from_slice(&w.to_le_bytes());
    }
    out
}

fn wire(r: &Renderer) -> Vec<u8> {
    r.state.as_ref().unwrap().gl_context.pipe.sent.clone()
}

#[test]
fn start_stores_the_session_and_sends_initialize() {
    let mut r = Renderer::new();
    let mut device = PipeDevice::new(true, true, true, true, true);
    start_renderer(&mut r, &mut device, 0x1, 800, 480, 160, 160, 60).unwrap();
    let st = r.state.as_ref().unwrap();
    assert_eq!(st.window, 0x1);
    assert_eq!((st.width, st.height), (800, 480));
    assert_eq!(st.gl_context.pipe.endpoint, Endpoint::Es3);
    let mut expected = b"/opengles3".to_vec();
    expected.extend_from_slice(&le(&[0x1000, 800, 480, 160, 160, 60]));
    assert_eq!(wire(&r), expected);
}

#[test]
fn start_unavailable_then_retry_succeeds() {
    // Transport unavailable: the start fails with NotAvailable and publishes
    // nothing; a retried start once the transport is available succeeds and
    // stores the dimensions.
    let mut r = Renderer::new();
    let mut device = PipeDevice::new(false, true, true, true, true);
    let first = start_renderer(&mut r, &mut device, 0x1, 800, 480, 160, 160, 60);
    assert_eq!(first.err(), Some(RendererError::NotAvailable));
    assert!(r.state.is_none());
    assert!(device.connect_log.is_empty());
    device.present = true;
    start_renderer(&mut r, &mut device, 0x1, 800, 480, 160, 160, 60).unwrap();
    let st = r.state.as_ref().unwrap();
    assert_eq!((st.width, st.height), (800, 480));
}

#[test]
fn failed_start_leaves_no_partial_state() {
    // No endpoint accepts: negotiation exhausts the endpoints, nothing is
    // published, and the attempt repeats identically.
    let mut r = Renderer::new();
    let mut device = PipeDevice::new(true, false, false, false, true);
    assert_eq!(
        start_renderer(&mut r, &mut device, 0x1, 800, 480, 160, 160, 60).err(),
        Some(RendererError::NoEndpoint)
    );
    assert!(r.state.is_none());
    let mut device2 = PipeDevice::new(true, false, false, false, true);
    assert_eq!(
        start_renderer(&mut r, &mut device2, 0x1, 800, 480, 160, 160, 60).err(),
        Some(RendererError::NoEndpoint)
    );
    assert!(r.state.is_none());
    assert_eq!(device.connect_log, device2.connect_log);
}

#[test]
fn resize_sends_the_exact_set_window_size_frame() {
    let mut r = Renderer::new();
    let mut device = PipeDevice::new(true, true, true, true, true);
    start_renderer(&mut r, &mut device, 0x1, 800, 480, 160, 160, 60).unwrap();
    let before = wire(&r);
    reset_window(&mut r, &device, 0x1, 0, 0, 800, 480, 640, 360).unwrap();
    let after = wire(&r);
    assert_eq!(&after[..before.len()], &before[..]);
    assert_eq!(&after[before.len()..], &le(&[0x1001, 800, 480, 640, 360])[..]);
    let st = r.state.as_ref().unwrap();
    assert_eq!((st.width, st.height), (640, 360));
    assert_eq!((st.gl_context.width, st.gl_context.height), (640, 360));
}

#[test]
fn resize_failure_keeps_the_session_alive() {
    let mut r = Renderer::new();
    let mut device = PipeDevice::new(true, true, true, true, true);
    start_renderer(&mut r, &mut device, 0x1, 800, 480, 160, 160, 60).unwrap();
    let before = wire(&r);
    device.healthy = false;
    let res = reset_window(&mut r, &device, 0x2, 0, 0, 800, 480, 640, 360);
    assert_eq!(res.err(), Some(RendererError::IoError));
    // The session survives; the stored geometry was swapped before the send,
    // the guest's last-known geometry was not.
    let st = r.state.as_ref().unwrap();
    assert_eq!(st.window, 0x2);
    assert_eq!((st.width, st.height), (640, 360));
    assert_eq!((st.gl_context.width, st.gl_context.height), (800, 480));
    assert_eq!(wire(&r), before);
}

#[test]
fn operations_without_a_session_fail_not_started() {
    let mut r = Renderer::new();
    let device = PipeDevice::new(true, true, true, true, true);
    assert_eq!(
        reset_window(&mut r, &device, 0x1, 0, 0, 800, 480, 640, 360).err(),
        Some(RendererError::NotStarted)
    );
    assert_eq!(set_native_window(&mut r, 0x1).err(), Some(RendererError::NotStarted));
    assert_eq!(remove_window(&mut r, 0x1).err(), Some(RendererError::NotStarted));
    assert_eq!(repaint_display(&mut r, &device).err(), Some(RendererError::NotStarted));
    assert_eq!(destroy_subwindow(&mut r, &device).err(), Some(RendererError::NotStarted));
    assert!(r.state.is_none());
}

#[test]
fn destroy_twice_fails_cleanly_the_second_time() {
    let mut r = Renderer::new();
    let mut device = PipeDevice::new(true, true, true, true, true);
    start_renderer(&mut r, &mut device, 0x1, 800, 480, 160, 160, 60).unwrap();
    assert_eq!(destroy_subwindow(&mut r, &device), Ok(()));
    assert!(r.state.is_none());
    assert_eq!(destroy_subwindow(&mut r, &device).err(), Some(RendererError::NotStarted));
}

#[test]
fn one_initialize_and_one_destroy_per_session() {
    // A start, three resizes and a destroy put exactly one Initialize frame
    // and one Destroy frame on the wire, in that order, with only
    // SetWindowSize frames between them.
    let mut r = Renderer::new();
    let mut device = PipeDevice::new(true, true, true, true, true);
    start_renderer(&mut r, &mut device, 0x1, 800, 480, 160, 160, 60).unwrap();
    reset_window(&mut r, &device, 0x1, 0, 0, 800, 480, 640, 360).unwrap();
    reset_window(&mut r, &device, 0x1, 0, 0, 800, 480, 800, 480).unwrap();
    reset_window(&mut r, &device, 0x1, 0, 0, 400, 240, 320, 200).unwrap();
    let mut expected = b"/opengles3".to_vec();
    expected.extend_from_slice(&le(&[0x1000, 800, 480, 160, 160, 60]));
    expected.extend_from_slice(&le(&[0x1001, 800, 480, 640, 360]));
    expected.extend_from_slice(&le(&[0x1001, 800, 480, 800, 480]));
    expected.extend_from_slice(&le(&[0x1001, 400, 240, 320, 200]));
    assert_eq!(wire(&r), expected);
    destroy_subwindow(&mut r, &device).unwrap();
    assert!(r.state.is_none());
}

#[test]
fn window_swap_and_removal_keep_the_channel() {
    let mut r = Renderer::new();
    let mut device = PipeDevice::new(true, true, true, true, true);
    start_renderer(&mut r, &mut device, 0x1, 800, 480, 160, 160, 60).unwrap();
    let before = wire(&r);
    set_native_window(&mut r, 0x7).unwrap();
    assert_eq!(r.state.as_ref().unwrap().window, 0x7);
    remove_window(&mut r, 0x7).unwrap();
    assert!(r.state.is_some());
    assert_eq!(wire(&r), before);
}

#[test]
fn repaint_sends_the_repaint_frame() {
    let mut r = Renderer::new();
    let mut device = PipeDevice::new(true, true, true, true, true);
    start_renderer(&mut r, &mut device, 0x1, 800, 480, 160, 160, 60).unwrap();
    let before = wire(&r);
    repaint_display(&mut r, &device).unwrap();
    let after = wire(&r);
    assert_eq!(&after[before.len()..], &le(&[0x1005])[..]);
}
