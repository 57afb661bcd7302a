use vstd::prelude::*;

verus! {

/// A color: one of a fixed palette of named colors, or an explicit RGB triple.
#[derive(Debug, Copy, Clone, PartialEq, Eq, Structural)]
pub enum Color {
    /// (255, 0, 0)
    Red,
    /// (0, 255, 0)
    Green,
    /// (0, 0, 255)
    Blue,
    /// (255, 255, 255)
    White,
    /// (255, 255, 0)
    Yellow,
    /// (0, 255, 255)
    Cyan,
    /// (255, 0, 255)
    Magenta,
    /// (0, 0, 0): the LEDs are off
    Black,
    /// An explicit (red, green, blue) triple, used as it is
    Three(u8, u8, u8),
}

/// The RGB triple of a color.
pub open spec fn color_rgb(c: Color) -> (u8, u8, u8) {
    match c {
        Color::Red => (255, 0, 0),
        Color::Green => (0, 255, 0),
        Color::Blue => (0, 0, 255),
        Color::White => (255, 255, 255),
        Color::Yellow => (255, 255, 0),
        Color::Cyan => (0, 255, 255),
        Color::Magenta => (255, 0, 255),
        Color::Black => (0, 0, 0),
        Color::Three(r, g, b) => (r, g, b),
    }
}

/// The palette entry that a name stands for, if it is one of the known names.
pub open spec fn palette_color(name: Seq<char>) -> Option<Color> {
    if name == "red"@ {
        Some(Color::Red)
    } else if name == "green"@ {
        Some(Color::Green)
    } else if name == "blue"@ {
        Some(Color::Blue)
    } else if name == "white"@ {
        Some(Color::White)
    } else if name == "yellow"@ {
        Some(Color::Yellow)
    } else if name == "cyan"@ {
        Some(Color::Cyan)
    } else if name == "magenta"@ {
        Some(Color::Magenta)
    } else if name == "off"@ || name == "black"@ {
        Some(Color::Black)
    } else {
        None
    }
}

/// A name belongs to the palette.
pub open spec fn is_palette_name(name: Seq<char>) -> bool {
    palette_color(name) is Some
}

/// The color that a name resolves to: its palette entry, or black for any other string.
pub open spec fn resolve_name(name: Seq<char>) -> Color {
    match palette_color(name) {
        Some(c) => c,
        None => Color::Black,
    }
}

/// Whether two strings hold the same characters.
pub fn str_equals(a: &str, b: &str) -> (r: bool)
    ensures
        r == (a@ == b@),
{
    let n = a.unicode_len();
    if n != b.unicode_len() {
        return false;
    }
    let mut i: usize = 0;
    while i < n
        invariant
            n == a@.len(),
            n == b@.len(),
            i <= n,
            a@.subrange(0, i as int) == b@.subrange(0, i as int),
        decreases n - i,
    {
        if a.get_char(i) != b.get_char(i) {
            assert(a@[i as int] != b@[i as int]);
            return false;
        }
        assert(a@.subrange(0, i + 1) =~= a@.subrange(0, i as int).push(a@[i as int]));
        assert(b@.subrange(0, i + 1) =~= b@.subrange(0, i as int).push(b@[i as int]));
        i = i + 1;
    }
    assert(a@ =~= a@.subrange(0, n as int));
    assert(b@ =~= b@.subrange(0, n as int));
    true
}

impl Color {
    /// The (red, green, blue) channels of this color.
    pub fn rgb(&self) -> (r: (u8, u8, u8))
        ensures
            r == color_rgb(*self),
    {
        match self {
            Color::Red => (255, 0, 0),
            Color::Green => (0, 255, 0),
            Color::Blue => (0, 0, 255),
            Color::White => (255, 255, 255),
            Color::Yellow => (255, 255, 0),
            Color::Cyan => (0, 255, 255),
            Color::Magenta => (255, 0, 255),
            Color::Black => (0, 0, 0),
            Color::Three(r, g, b) => (*r, *g, *b),
        }
    }
}

impl<'a> From<&'a str> for Color {
    /// Resolves a color name; a string outside the palette gives black.
    fn from(name: &'a str) -> (c: Color) {
        if str_equals(name, "red") {
            Color::Red
        } else if str_equals(name, "green") {
            Color::Green
        } else if str_equals(name, "blue") {
            Color::Blue
        } else if str_equals(name, "white") {
            Color::White
        } else if str_equals(name, "yellow") {
            Color::Yellow
        } else if str_equals(name, "cyan") {
            Color::Cyan
        } else if str_equals(name, "magenta") {
            Color::Magenta
        } else {
            Color::Black
        }
    }
}

impl<'a> vstd::std_specs::convert::FromSpecImpl<&'a str> for Color {
    open spec fn obeys_from_spec() -> bool {
        true
    }

    open spec fn from_spec(name: &'a str) -> Color {
        resolve_name(name@)
    }
}

} // verus!
