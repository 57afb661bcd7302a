use blinkrs::{Color, LedNum, Message, Millis};

#[test]
fn test_red() {
    let red = Message::from("red");
    assert_eq!(red.buffer()[2..5], [0xff, 0x00, 0x00])
}

#[test]
fn test_green() {
    let red = Message::from("green");
    assert_eq!(red.buffer()[2..5], [0x00, 0xff, 0x00])
}

#[test]
fn test_blue() {
    let red = Message::from("blue");
    assert_eq!(red.buffer()[2..5], [0x00, 0x00, 0xff])
}

#[test]
fn test_off() {
    let red = Message::from("off");
    assert_eq!(red.buffer()[2..5], [0x00, 0x00, 0x00])
}

#[test]
fn other_palette_names() {
    assert_eq!(Message::from("white").buffer()[2..5], [0xff, 0xff, 0xff]);
    assert_eq!(Message::from("yellow").buffer()[2..5], [0xff, 0xff, 0x00]);
    assert_eq!(Message::from("cyan").buffer()[2..5], [0x00, 0xff, 0xff]);
    assert_eq!(Message::from("magenta").buffer()[2..5], [0xff, 0x00, 0xff]);
    assert_eq!(Message::from("black").buffer()[2..5], [0x00, 0x00, 0x00]);
}

#[test]
fn unknown_names_resolve_to_black() {
    for name in ["", "purple", "Red", "redd", "re", "ŕed"] {
        assert_eq!(Color::from(name).rgb(), (0, 0, 0));
        assert_eq!(Message::from(name).buffer()[2..5], [0, 0, 0]);
    }
}

#[test]
fn explicit_triple_is_kept() {
    assert_eq!(Color::Three(1, 2, 3).rgb(), (1, 2, 3));
    assert_eq!(Color::from("red").rgb(), (255, 0, 0));
}

#[test]
fn off_is_immediate_black() {
    let off = Message::Off.buffer();
    assert_eq!(off, [0x01, 0x6e, 0, 0, 0, 0, 0, 0]);
    assert_eq!(off, Message::Immediate(Color::from("off")).buffer());
    assert_eq!(off, Message::from("off").buffer());
}

#[test]
fn immediate_frame() {
    let buf = Message::Immediate(Color::Three(7, 8, 9)).buffer();
    assert_eq!(buf, [0x01, 0x6e, 7, 8, 9, 0, 0, 0]);
}

#[test]
fn fade_scenario() {
    let buf = Message::Fade(Color::Three(10, 20, 30), Millis(100), LedNum::Led1).buffer();
    assert_eq!(buf, [0x01, 0x63, 10, 20, 30, 0, 10, 1]);
}

#[test]
fn play_loop_scenario() {
    let m = Message::PlayLoop { on: true, start_pos: 0, end_pos: 5, loop_count: 3 };
    assert_eq!(m.buffer(), [0x01, 0x70, 1, 0, 5, 3, 0, 0]);
    let stop = Message::PlayLoop { on: false, start_pos: 2, end_pos: 4, loop_count: 0 };
    assert_eq!(stop.buffer(), [0x01, 0x70, 0, 2, 4, 0, 0, 0]);
}

#[test]
fn set_led_num_frame() {
    assert_eq!(Message::SetLedNum(LedNum::Led2).buffer(), [0x01, 0x6c, 2, 0, 0, 0, 0, 0]);
    assert_eq!(Message::SetLedNum(LedNum::All).buffer(), [0x01, 0x6c, 0, 0, 0, 0, 0, 0]);
}

#[test]
fn set_line_pattern_frame() {
    let m = Message::SetLinePattern(Color::Blue, Millis(2560), 9);
    assert_eq!(m.buffer(), [0x01, 0x50, 0, 0, 0xff, 1, 1, 9]);
}

#[test]
fn zero_duration_gives_zero_time_bytes() {
    let buf = Message::Fade(Color::Red, Millis(0), LedNum::All).buffer();
    assert_eq!(buf[5..7], [0, 0]);
    let buf = Message::SetLinePattern(Color::Red, Millis(9), 0).buffer();
    assert_eq!(buf[5..7], [0, 0]);
}

#[test]
fn low_time_byte_is_modulo_255() {
    // 255 ticks: the high byte is 0 and the low byte wraps to 0
    let buf = Message::Fade(Color::Red, Millis(2550), LedNum::All).buffer();
    assert_eq!(buf[5..7], [0, 0]);
    let buf = Message::Fade(Color::Red, Millis(2540), LedNum::All).buffer();
    assert_eq!(buf[5..7], [0, 254]);
}

#[test]
fn large_durations_wrap_to_sixteen_bit_ticks() {
    let buf = Message::Fade(Color::Red, Millis(700_000), LedNum::All).buffer();
    assert_eq!(buf[5..7], [17, 129]);
    let buf = Message::SetLinePattern(Color::Red, Millis(u128::MAX), 0).buffer();
    assert_eq!(buf[5..7], [153, 51]);
}

#[test]
fn every_frame_starts_with_report_id() {
    let all = [
        Message::Off,
        Message::Fade(Color::Green, Millis(5), LedNum::Led2),
        Message::Immediate(Color::Cyan),
        Message::SetLinePattern(Color::Magenta, Millis(1000), 255),
        Message::SetLedNum(LedNum::Led1),
        Message::PlayLoop { on: true, start_pos: 1, end_pos: 2, loop_count: 255 },
    ];
    for m in all {
        assert_eq!(m.buffer()[0], 0x01);
        assert_eq!(m.buffer().len(), 8);
    }
}

#[test]
fn led_num_values() {
    assert_eq!(LedNum::All.as_u8(), 0);
    assert_eq!(LedNum::Led1.as_u8(), 1);
    assert_eq!(LedNum::Led2.as_u8(), 2);
}

#[test]
fn encoding_twice_gives_same_bytes() {
    let m = Message::Fade(Color::Three(1, 2, 3), Millis(12345), LedNum::Led2);
    assert_eq!(m.buffer(), m.buffer());
    assert_eq!(m.buffer(), [0x01, 0x63, 1, 2, 3, 4, 214, 2]);
}
