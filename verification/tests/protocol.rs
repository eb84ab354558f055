use twoyi_renderer::command::Command;
use twoyi_renderer::command::GLCommand;

fn le(words: &[i32]) -> Vec<u8> {
    let mut out = Vec::new();
    for w in words {
        out.extend_from_slice(&w.to_le_bytes());
    }
    out
}

#[test]
fn opcodes_are_stable() {
    assert_eq!(GLCommand::Initialize.opcode(), 0x1000);
    assert_eq!(GLCommand::SetWindowSize.opcode(), 0x1001);
    assert_eq!(GLCommand::SwapBuffers.opcode(), 0x1002);
    assert_eq!(GLCommand::MakeCurrent.opcode(), 0x1003);
    assert_eq!(GLCommand::Destroy.opcode(), 0x1004);
    assert_eq!(GLCommand::Repaint.opcode(), 0x1005);
}

#[test]
fn initialize_encodes_as_six_le_words() {
    let c = Command::Initialize { width: 800, height: 480, xdpi: 160, ydpi: 160, fps: 60 };
    assert_eq!(c.encode(), le(&[0x1000, 800, 480, 160, 160, 60]));
}

#[test]
fn set_window_size_encodes_as_five_le_words() {
    let c = Command::SetWindowSize { width: 800, height: 480, fb_width: 640, fb_height: 360 };
    assert_eq!(c.encode(), le(&[0x1001, 800, 480, 640, 360]));
}

#[test]
fn bare_commands_encode_as_one_word() {
    assert_eq!(Command::SwapBuffers.encode(), le(&[0x1002]));
    assert_eq!(Command::MakeCurrent.encode(), le(&[0x1003]));
    assert_eq!(Command::Destroy.encode(), vec![0x04, 0x10, 0x00, 0x00]);
    assert_eq!(Command::Repaint.encode(), le(&[0x1005]));
}

#[test]
fn negative_parameters_encode_twos_complement() {
    let c = Command::SetWindowSize { width: -1, height: i32::MIN, fb_width: 0, fb_height: i32::MAX };
    assert_eq!(c.encode(), le(&[0x1001, -1, i32::MIN, 0, i32::MAX]));
}

#[test]
fn round_trip_reconstructs_every_command() {
    let samples = [
        Command::Initialize { width: 800, height: 480, xdpi: 160, ydpi: 160, fps: 60 },
        Command::Initialize { width: -7, height: 0, xdpi: i32::MAX, ydpi: i32::MIN, fps: 1 },
        Command::SetWindowSize { width: 800, height: 480, fb_width: 640, fb_height: 360 },
        Command::SetWindowSize { width: 1, height: -2, fb_width: 3, fb_height: -4 },
        Command::SwapBuffers,
        Command::MakeCurrent,
        Command::Destroy,
        Command::Repaint,
    ];
    for c in samples {
        let bytes = c.encode();
        assert_eq!(Command::decode(&bytes), Some(c));
    }
}

#[test]
fn decode_rejects_what_nothing_encodes() {
    // Too short for an opcode word.
    assert_eq!(Command::decode(&[]), None);
    assert_eq!(Command::decode(&[0x00, 0x10, 0x00]), None);
    // An opcode outside the command set.
    assert_eq!(Command::decode(&0x1006i32.to_le_bytes()), None);
    assert_eq!(Command::decode(&0x0fffi32.to_le_bytes()), None);
    // A known opcode with the wrong parameter count.
    assert_eq!(Command::decode(&le(&[0x1000, 800, 480])), None);
    assert_eq!(Command::decode(&le(&[0x1001, 800, 480, 640, 360, 7])), None);
    assert_eq!(Command::decode(&le(&[0x1004, 1])), None);
}
