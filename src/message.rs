use vstd::prelude::*;

use crate::color::{color_rgb, resolve_name, Color};
use crate::constants::{
    FADE_COMMAND_ACTION, IMMEDIATE_COMMAND_ACTION, PLAY_LOOP_ACTION, REPORT_ID, SET_LED_NUM_ACTION,
    SET_LINE_PATTERN_ACTION,
};

verus! {

/// Which LED a command applies to on the two-LED variant of the device.
/// The single-LED variant ignores it.
#[derive(Debug, Copy, Clone, PartialEq, Eq, Structural)]
pub enum LedNum {
    /// Use all/both LEDs
    All,
    /// Use only LED1
    Led1,
    /// Use only LED2
    Led2,
}

/// The wire value of an LED selector.
pub open spec fn led_value(l: LedNum) -> u8 {
    match l {
        LedNum::All => 0,
        LedNum::Led1 => 1,
        LedNum::Led2 => 2,
    }
}

impl LedNum {
    /// The byte that the USB protocol uses for this selector.
    pub fn as_u8(&self) -> (r: u8)
        ensures
            r == led_value(*self),
    {
        match self {
            LedNum::All => 0,
            LedNum::Led1 => 1,
            LedNum::Led2 => 2,
        }
    }
}

/// A length of time in milliseconds.
#[derive(Debug, Copy, Clone, PartialEq, Eq, Structural)]
pub struct Millis(pub u128);

/// A command that the device understands. Each one is encoded as one 8-byte frame.
/// Fade is the only command that reliably honors a specific LED.
#[derive(Debug, Copy, Clone, PartialEq, Eq, Structural)]
pub enum Message {
    /// Turn off the LEDs
    Off,
    /// Fade to the color over the given time, on the given LED
    Fade(Color, Millis, LedNum),
    /// Set the LED(s) to the color without fading
    Immediate(Color),
    /// Write a color and fade time into the stored pattern at the given position
    SetLinePattern(Color, Millis, u8),
    /// Select the LED that later SetLinePattern commands use, until it is set again.
    /// Does not apply to Fade and Immediate.
    SetLedNum(LedNum),
    /// Start or stop playing the stored pattern
    PlayLoop {
        /// Whether to start or stop the loop
        on: bool,
        /// The position in the pattern to start playing from
        start_pos: u8,
        /// The position in the pattern to stop playing at
        end_pos: u8,
        /// How many times to play the pattern
        loop_count: u8,
    },
}

/// The fade time in device ticks of 10 ms, kept to 16 bits.
pub open spec fn ticks(ms: nat) -> nat {
    (ms / 10) % 0x10000
}

/// The high byte of the tick count.
pub open spec fn time_hi(ms: nat) -> u8 {
    (ticks(ms) / 0x100) as u8
}

/// The low time byte: the tick count modulo 255, as the device protocol defines it.
pub open spec fn time_lo(ms: nat) -> u8 {
    (ticks(ms) % 0xff) as u8
}

/// A frame that carries a color, a fade time and a last byte.
pub open spec fn timed_frame(op: u8, c: Color, ms: nat, last: u8) -> Seq<u8> {
    seq![REPORT_ID, op, color_rgb(c).0, color_rgb(c).1, color_rgb(c).2, time_hi(ms), time_lo(ms), last]
}

/// The frame that sets a color at once, on all LEDs.
pub open spec fn immediate_frame(c: Color) -> Seq<u8> {
    seq![REPORT_ID, IMMEDIATE_COMMAND_ACTION, color_rgb(c).0, color_rgb(c).1, color_rgb(c).2, 0u8, 0u8, 0u8]
}

/// The 8 bytes that encode a command.
pub open spec fn frame(m: Message) -> Seq<u8> {
    match m {
        Message::Off => immediate_frame(Color::Three(0, 0, 0)),
        Message::Fade(c, d, l) => timed_frame(FADE_COMMAND_ACTION, c, d.0 as nat, led_value(l)),
        Message::Immediate(c) => immediate_frame(c),
        Message::SetLinePattern(c, d, pos) => timed_frame(SET_LINE_PATTERN_ACTION, c, d.0 as nat, pos),
        Message::SetLedNum(l) => seq![REPORT_ID, SET_LED_NUM_ACTION, led_value(l), 0u8, 0u8, 0u8, 0u8, 0u8],
        Message::PlayLoop { on, start_pos, end_pos, loop_count } => seq![
            REPORT_ID,
            PLAY_LOOP_ACTION,
            if on { 1u8 } else { 0u8 },
            start_pos,
            end_pos,
            loop_count,
            0u8,
            0u8,
        ],
    }
}

/// The command that a color name stands for: set that color immediately.
pub open spec fn named_message(name: Seq<char>) -> Message {
    Message::Immediate(resolve_name(name))
}

/// The two time bytes of a fade time.
fn time_bytes(d: Millis) -> (r: (u8, u8))
    ensures
        r.0 == time_hi(d.0 as nat),
        r.1 == time_lo(d.0 as nat),
{
    let dms: u16 = (d.0 / 10 % 0x10000) as u16;
    let th: u8 = (dms / 0x100) as u8;
    let tl: u8 = (dms % 0xff) as u8;
    (th, tl)
}

/// The frame that sets a color at once.
fn immediate_buffer(color: &Color) -> (r: [u8; 8])
    ensures
        r@ == immediate_frame(*color),
{
    let (r, g, b) = color.rgb();
    let buf = [REPORT_ID, IMMEDIATE_COMMAND_ACTION, r, g, b, 0x00, 0x00, 0x00];
    assert(buf@ =~= immediate_frame(*color));
    buf
}

impl Message {
    /// The 8-byte frame written to the device for this command: the report ID, the
    /// opcode, and the opcode's payload padded with zeros.
    pub fn buffer(&self) -> (r: [u8; 8])
        ensures
            r@ == frame(*self),
    {
        match self {
            Message::Off => immediate_buffer(&Color::Three(0x00, 0x00, 0x00)),
            Message::Fade(color, duration, ledn) => {
                let (r, g, b) = color.rgb();
                let (th, tl) = time_bytes(*duration);
                let buf = [REPORT_ID, FADE_COMMAND_ACTION, r, g, b, th, tl, ledn.as_u8()];
                assert(buf@ =~= frame(*self));
                buf
            },
            Message::Immediate(color) => immediate_buffer(color),
            Message::SetLinePattern(color, duration, pos) => {
                let (r, g, b) = color.rgb();
                let (th, tl) = time_bytes(*duration);
                let buf = [REPORT_ID, SET_LINE_PATTERN_ACTION, r, g, b, th, tl, *pos];
                assert(buf@ =~= frame(*self));
                buf
            },
            Message::SetLedNum(ledn) => {
                let buf = [REPORT_ID, SET_LED_NUM_ACTION, ledn.as_u8(), 0, 0, 0, 0, 0];
                assert(buf@ =~= frame(*self));
                buf
            },
            Message::PlayLoop { on, start_pos, end_pos, loop_count } => {
                let on_u8: u8 = if *on { 1 } else { 0 };
                let buf = [REPORT_ID, PLAY_LOOP_ACTION, on_u8, *start_pos, *end_pos, *loop_count, 0, 0];
                assert(buf@ =~= frame(*self));
                buf
            },
        }
    }
}

impl<'a> From<&'a str> for Message {
    /// The command that sets the named color immediately.
    fn from(name: &'a str) -> (m: Message) {
        Message::Immediate(Color::from(name))
    }
}

impl<'a> vstd::std_specs::convert::FromSpecImpl<&'a str> for Message {
    open spec fn obeys_from_spec() -> bool {
        true
    }

    open spec fn from_spec(name: &'a str) -> Message {
        named_message(name@)
    }
}

} // verus!
