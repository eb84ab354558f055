use twoyi_renderer::endpoint::Endpoint;
use twoyi_renderer::endpoint::preference_order;
use twoyi_renderer::error::RendererError;
use twoyi_renderer::pipe::PipeConnection;
use twoyi_renderer::pipe::PipeDevice;
use twoyi_renderer::pipe::create_opengles_connection;
use twoyi_renderer::pipe::is_pipe_available;

#[test]
fn test_pipe_availability() {
    // This test just checks if the function runs without panic
    let device = PipeDevice::new(true, true, true, true, true);
    let _ = is_pipe_available(&device);
}

#[test]
fn availability_reports_the_device_presence() {
    assert!(is_pipe_available(&PipeDevice::new(true, false, false, false, false)));
    assert!(!is_pipe_available(&PipeDevice::new(false, true, true, true, true)));
}

#[test]
fn endpoint_names_match_the_guest_services() {
    assert_eq!(Endpoint::Es3.name_bytes(), b"/opengles3");
    assert_eq!(Endpoint::Es2.name_bytes(), b"/opengles2");
    assert_eq!(Endpoint::Es1.name_bytes(), b"/opengles");
    assert_eq!(Endpoint::Es3.version(), 3);
    assert_eq!(Endpoint::Es2.version(), 2);
    assert_eq!(Endpoint::Es1.version(), 1);
}

#[test]
fn preference_order_is_highest_version_first() {
    assert_eq!(preference_order(), vec![Endpoint::Es3, Endpoint::Es2, Endpoint::Es1]);
}

#[test]
fn connect_writes_the_name_as_handshake() {
    let mut device = PipeDevice::new(true, false, true, false, true);
    let conn = PipeConnection::new(&mut device, Endpoint::Es2).unwrap();
    assert_eq!(conn.endpoint, Endpoint::Es2);
    assert_eq!(conn.sent, b"/opengles2");
    assert_eq!(device.connect_log, vec![Endpoint::Es2]);
}

#[test]
fn connect_fails_not_available_when_device_absent() {
    let mut device = PipeDevice::new(false, true, true, true, true);
    let r = PipeConnection::new(&mut device, Endpoint::Es3);
    assert_eq!(r.err(), Some(RendererError::NotAvailable));
    assert!(device.connect_log.is_empty());
}

#[test]
fn negotiation_prefers_the_highest_version() {
    let mut device = PipeDevice::new(true, true, true, true, true);
    let conn = create_opengles_connection(&mut device).unwrap();
    assert_eq!(conn.endpoint, Endpoint::Es3);
    assert_eq!(device.connect_log, vec![Endpoint::Es3]);
}

#[test]
fn negotiation_stops_at_first_success_without_touching_lower() {
    // Only the ES 2 endpoint is reachable: the channel binds to it, the ES 3
    // attempt precedes it, and the ES 1 endpoint sees no attempt.
    let mut device = PipeDevice::new(true, false, true, true, true);
    let conn = create_opengles_connection(&mut device).unwrap();
    assert_eq!(conn.endpoint, Endpoint::Es2);
    assert_eq!(device.connect_log, vec![Endpoint::Es3, Endpoint::Es2]);
    assert!(!device.connect_log.contains(&Endpoint::Es1));
}

#[test]
fn negotiation_exhausts_everything_and_reports_no_endpoint() {
    let mut device = PipeDevice::new(true, false, false, false, true);
    let r = create_opengles_connection(&mut device);
    assert_eq!(r.err(), Some(RendererError::NoEndpoint));
    assert_eq!(device.connect_log, vec![Endpoint::Es3, Endpoint::Es2, Endpoint::Es1]);
}

#[test]
fn write_all_is_atomic_on_an_unhealthy_transport() {
    let healthy = PipeDevice::new(true, true, true, true, true);
    let unhealthy = PipeDevice::new(true, true, true, true, false);
    let mut conn = PipeConnection { endpoint: Endpoint::Es3, sent: Vec::new(), inbound: Vec::new() };
    assert_eq!(conn.write_all(&unhealthy, &[1, 2, 3]).err(), Some(RendererError::IoError));
    assert!(conn.sent.is_empty());
    conn.write_all(&healthy, &[1, 2, 3]).unwrap();
    assert_eq!(conn.write(&healthy, &[4]).unwrap(), 1);
    assert_eq!(conn.sent, vec![1, 2, 3, 4]);
    conn.flush(&healthy).unwrap();
    assert_eq!(conn.flush(&unhealthy).err(), Some(RendererError::IoError));
    assert_eq!(conn.sent, vec![1, 2, 3, 4]);
}

#[test]
fn read_drains_what_the_guest_offered() {
    let mut conn = PipeConnection {
        endpoint: Endpoint::Es1,
        sent: Vec::new(),
        inbound: vec![10, 20, 30, 40, 50],
    };
    assert_eq!(conn.read(2), vec![10, 20]);
    assert_eq!(conn.read(10), vec![30, 40, 50]);
    assert_eq!(conn.read(4), Vec::<u8>::new());
}

#[test]
fn read_exact_fails_without_consuming_when_short() {
    let mut conn = PipeConnection {
        endpoint: Endpoint::Es1,
        sent: Vec::new(),
        inbound: vec![7, 8],
    };
    assert_eq!(conn.read_exact(3).err(), Some(RendererError::IoError));
    assert_eq!(conn.inbound, vec![7, 8]);
    assert_eq!(conn.read_exact(2).unwrap(), vec![7, 8]);
    assert!(conn.inbound.is_empty());
}
