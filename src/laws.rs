use vstd::prelude::*;

use crate::color::{color_rgb, is_palette_name, palette_color, resolve_name, Color};
use crate::message::{frame, led_value, named_message, ticks, time_hi, time_lo, LedNum, Message};

verus! {

/// The documented RGB triple of each palette name.
pub open spec fn canonical_rgb(name: Seq<char>) -> (u8, u8, u8) {
    if name == "red"@ {
        (255, 0, 0)
    } else if name == "green"@ {
        (0, 255, 0)
    } else if name == "blue"@ {
        (0, 0, 255)
    } else if name == "white"@ {
        (255, 255, 255)
    } else if name == "yellow"@ {
        (255, 255, 0)
    } else if name == "cyan"@ {
        (0, 255, 255)
    } else if name == "magenta"@ {
        (255, 0, 255)
    } else {
        (0, 0, 0)
    }
}

/// Setting a palette color by name puts that name's documented triple in bytes 2 to 4
/// of the frame.
pub proof fn lemma_palette_name_encoding(name: Seq<char>)
    requires
        is_palette_name(name),
    ensures
        frame(named_message(name)).subrange(2, 5) == seq![
            canonical_rgb(name).0,
            canonical_rgb(name).1,
            canonical_rgb(name).2,
        ],
{
    assert(frame(named_message(name)).subrange(2, 5) =~= seq![
        canonical_rgb(name).0,
        canonical_rgb(name).1,
        canonical_rgb(name).2,
    ]);
}

/// Off carries black, and encodes exactly as setting the color named "off".
pub proof fn lemma_off_encoding()
    ensures
        frame(Message::Off).subrange(2, 5) == seq![0u8, 0u8, 0u8],
        frame(Message::Off) == frame(named_message("off"@)),
{
    reveal_strlit("off");
    reveal_strlit("red");
    reveal_strlit("green");
    reveal_strlit("blue");
    reveal_strlit("white");
    reveal_strlit("yellow");
    reveal_strlit("cyan");
    reveal_strlit("magenta");
    assert(frame(Message::Off).subrange(2, 5) =~= seq![0u8, 0u8, 0u8]);
    assert("off"@[0] != "red"@[0]);
    assert("off"@.len() != "green"@.len());
    assert("off"@.len() != "blue"@.len());
    assert("off"@.len() != "white"@.len());
    assert("off"@.len() != "yellow"@.len());
    assert("off"@.len() != "cyan"@.len());
    assert("off"@.len() != "magenta"@.len());
    assert(resolve_name("off"@) == Color::Black);
    assert(frame(Message::Off) =~= frame(named_message("off"@)));
}

/// A string outside the palette resolves to black: resolution never fails.
pub proof fn lemma_unknown_name_is_black(name: Seq<char>)
    requires
        !is_palette_name(name),
    ensures
        color_rgb(resolve_name(name)) == (0u8, 0u8, 0u8),
{
}

/// Every frame is 8 bytes long and starts with the report ID 0x01.
pub proof fn lemma_report_id(m: Message)
    ensures
        frame(m).len() == 8,
        frame(m)[0] == 0x01,
{
}

/// The time bytes are the tick count split without loss of the high part: the high
/// byte is the tick count shifted right by 8, the low byte the tick count modulo 255.
/// A zero fade time gives two zero bytes.
pub proof fn lemma_time_bytes(ms: nat)
    ensures
        ticks(ms) < 0x10000,
        time_hi(ms) as nat == ticks(ms) / 0x100,
        time_lo(ms) as nat == ticks(ms) % 0xff,
        time_hi(0) == 0,
        time_lo(0) == 0,
{
}

/// The wire value of an LED selector is 0, 1 or 2, and tells the selectors apart:
/// each of the three values belongs to exactly one selector.
pub proof fn lemma_led_value_bijective(a: LedNum, b: LedNum)
    ensures
        led_value(a) <= 2,
        led_value(a) == led_value(b) <==> a == b,
        led_value(LedNum::All) == 0,
        led_value(LedNum::Led1) == 1,
        led_value(LedNum::Led2) == 2,
{
}

/// Encoding depends on the command alone: equal commands give identical frames.
pub proof fn lemma_encoding_deterministic(m1: Message, m2: Message)
    requires
        m1 == m2,
    ensures
        frame(m1) == frame(m2),
{
}

} // verus!
