use twoyi_renderer::DebugConfig;
use twoyi_renderer::get_debug_log_dir;
use twoyi_renderer::is_debug_mode;
use twoyi_renderer::selector::AttachAction;
use twoyi_renderer::selector::RendererKind;
use twoyi_renderer::selector::RendererSelector;
use twoyi_renderer::set_debug_log_dir;
use twoyi_renderer::set_debug_mode;
use twoyi_renderer::socket_monitor::TapAction;
use twoyi_renderer::socket_monitor::TapEvent;
use twoyi_renderer::socket_monitor::aligned_words_view;
use twoyi_renderer::socket_monitor::hex_view;
use twoyi_renderer::socket_monitor::monitor_step;
use twoyi_renderer::socket_monitor::printable_view;
use twoyi_renderer::socket_monitor::should_attach_listener;
use twoyi_renderer::socket_monitor::stop_socket_monitoring;

fn chars(s: &str) -> Vec<char> {
    s.chars().collect()
}

#[test]
fn debug_config_round_trip() {
    let mut config = DebugConfig::new();
    assert!(!is_debug_mode(&config));
    assert_eq!(get_debug_log_dir(&config), "twoyi_renderer_debug");
    set_debug_mode(&mut config, true);
    assert!(is_debug_mode(&config));
    set_debug_log_dir(&mut config, String::from("/tmp/taps"));
    assert_eq!(get_debug_log_dir(&config), "/tmp/taps");
    set_debug_mode(&mut config, false);
    assert!(!is_debug_mode(&config));
    assert_eq!(get_debug_log_dir(&config), "/tmp/taps");
}

#[test]
fn listeners_attach_only_with_diagnostics_on_existing_paths() {
    assert!(should_attach_listener(true, true));
    assert!(!should_attach_listener(true, false));
    assert!(!should_attach_listener(false, true));
    assert!(!should_attach_listener(false, false));
    stop_socket_monitoring();
}

#[test]
fn monitor_steps_follow_the_listener_lifecycle() {
    assert_eq!(monitor_step(&TapEvent::Chunk(vec![1, 2, 3])), TapAction::Record);
    assert_eq!(monitor_step(&TapEvent::Timeout), TapAction::Wait);
    assert_eq!(monitor_step(&TapEvent::Closed), TapAction::Stop);
    assert_eq!(monitor_step(&TapEvent::Failed), TapAction::Stop);
}

#[test]
fn hex_view_shows_two_digits_per_byte() {
    assert_eq!(hex_view(&[]), chars("[]"));
    assert_eq!(hex_view(&[0x0a]), chars("[0a]"));
    assert_eq!(hex_view(&[0x0a, 0xff, 0x00, 0x7b]), chars("[0a, ff, 00, 7b]"));
}

#[test]
fn printable_view_keeps_graphic_ascii_and_dots_the_rest() {
    assert_eq!(printable_view(b"GL es3 ok!", false), chars("GL es3 ok!"));
    assert_eq!(printable_view(&[0x00, 0x41, 0x0a, 0x7f], false), chars(".A.."));
    assert_eq!(printable_view(&[0x0a, 0x0d, 0x09], true), chars("\n\r."));
}

#[test]
fn aligned_words_view_reads_le_words_or_nothing() {
    let mut bytes = Vec::new();
    bytes.extend_from_slice(&0x1000i32.to_le_bytes());
    bytes.extend_from_slice(&(-800i32).to_le_bytes());
    assert_eq!(aligned_words_view(&bytes), Some(vec![0x1000, -800]));
    assert_eq!(aligned_words_view(&[]), None);
    assert_eq!(aligned_words_view(&[1, 2, 3]), None);
    assert_eq!(aligned_words_view(&[1, 2, 3, 4, 5]), None);
}

#[test]
fn first_attach_starts_and_later_attaches_reuse() {
    let mut selector = RendererSelector::new(true);
    assert_eq!(selector.select(), RendererKind::New);
    assert_eq!(selector.on_window_attach(), AttachAction::StartSession);
    assert_eq!(selector.on_window_attach(), AttachAction::Reattach);
    assert_eq!(selector.on_window_attach(), AttachAction::Reattach);
}

#[test]
fn renderer_mode_is_fixed_before_the_first_attach() {
    let mut selector = RendererSelector::new(false);
    assert_eq!(selector.select(), RendererKind::Legacy);
    selector.select_renderer_mode(true);
    assert_eq!(selector.select(), RendererKind::New);
    assert_eq!(selector.on_window_attach(), AttachAction::StartSession);
    assert_eq!(selector.select(), RendererKind::New);
}
