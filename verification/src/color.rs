//! The color model: the 16 standard ANSI colors, 256-color palette indices
//! and 24-bit true color.

use vstd::prelude::*;
use vstd::string::StringExecFns;
use crate::casing::eq_lower;
use crate::casing::lower_char;
use crate::casing::lower_seq;
use crate::digits::spec_dec;
use crate::digits::u8_dec_str;

verus! {

/// A terminal text color: one of the 16 standard ANSI colors, an index into
/// the 256-entry palette, or a 24-bit RGB true color.
#[derive(Clone, Copy, Debug, PartialEq, Eq, Structural)]
pub enum Color {
    Black,
    Red,
    Green,
    Yellow,
    Blue,
    Magenta,
    Cyan,
    White,
    BrightBlack,
    BrightRed,
    BrightGreen,
    BrightYellow,
    BrightBlue,
    BrightMagenta,
    BrightCyan,
    BrightWhite,
    Palette(u8),
    True(u8, u8, u8),
}

/// The error returned when a text label names no known color.
#[derive(Clone, Copy, Debug, PartialEq, Eq, Structural)]
pub struct NameNotRecognized;

/// The color that an already-lowercased label denotes, if any. "purple" is a
/// synonym for magenta; palette and true colors have no textual name.
pub open spec fn color_of_lower(t: Seq<char>) -> Option<Color> {
    if t == "black"@ {
        Some(Color::Black)
    } else if t == "red"@ {
        Some(Color::Red)
    } else if t == "green"@ {
        Some(Color::Green)
    } else if t == "yellow"@ {
        Some(Color::Yellow)
    } else if t == "blue"@ {
        Some(Color::Blue)
    } else if t == "magenta"@ {
        Some(Color::Magenta)
    } else if t == "purple"@ {
        Some(Color::Magenta)
    } else if t == "cyan"@ {
        Some(Color::Cyan)
    } else if t == "white"@ {
        Some(Color::White)
    } else if t == "bright black"@ {
        Some(Color::BrightBlack)
    } else if t == "bright red"@ {
        Some(Color::BrightRed)
    } else if t == "bright green"@ {
        Some(Color::BrightGreen)
    } else if t == "bright yellow"@ {
        Some(Color::BrightYellow)
    } else if t == "bright blue"@ {
        Some(Color::BrightBlue)
    } else if t == "bright magenta"@ {
        Some(Color::BrightMagenta)
    } else if t == "bright cyan"@ {
        Some(Color::BrightCyan)
    } else if t == "bright white"@ {
        Some(Color::BrightWhite)
    } else {
        None
    }
}

/// What parsing a label returns: lowercase it, then look the name up.
pub open spec fn spec_parse(s: Seq<char>) -> Option<Color> {
    color_of_lower(lower_seq(s))
}

/// The SGR parameter string that selects `c` as the foreground color.
pub open spec fn spec_fg(c: Color) -> Seq<char> {
    match c {
        Color::Black => spec_dec(30),
        Color::Red => spec_dec(31),
        Color::Green => spec_dec(32),
        Color::Yellow => spec_dec(33),
        Color::Blue => spec_dec(34),
        Color::Magenta => spec_dec(35),
        Color::Cyan => spec_dec(36),
        Color::White => spec_dec(37),
        Color::BrightBlack => spec_dec(90),
        Color::BrightRed => spec_dec(91),
        Color::BrightGreen => spec_dec(92),
        Color::BrightYellow => spec_dec(93),
        Color::BrightBlue => spec_dec(94),
        Color::BrightMagenta => spec_dec(95),
        Color::BrightCyan => spec_dec(96),
        Color::BrightWhite => spec_dec(97),
        Color::Palette(n) => spec_dec(38) + seq![';'] + spec_dec(5) + seq![';'] + spec_dec(
            n as nat,
        ),
        Color::True(r, g, b) => spec_dec(38) + seq![';'] + spec_dec(2) + seq![';'] + spec_dec(
            r as nat,
        ) + seq![';'] + spec_dec(g as nat) + seq![';'] + spec_dec(b as nat),
    }
}

/// The SGR parameter string that selects `c` as the background color.
pub open spec fn spec_bg(c: Color) -> Seq<char> {
    match c {
        Color::Black => spec_dec(40),
        Color::Red => spec_dec(41),
        Color::Green => spec_dec(42),
        Color::Yellow => spec_dec(43),
        Color::Blue => spec_dec(44),
        Color::Magenta => spec_dec(45),
        Color::Cyan => spec_dec(46),
        Color::White => spec_dec(47),
        Color::BrightBlack => spec_dec(100),
        Color::BrightRed => spec_dec(101),
        Color::BrightGreen => spec_dec(102),
        Color::BrightYellow => spec_dec(103),
        Color::BrightBlue => spec_dec(104),
        Color::BrightMagenta => spec_dec(105),
        Color::BrightCyan => spec_dec(106),
        Color::BrightWhite => spec_dec(107),
        Color::Palette(n) => spec_dec(48) + seq![';'] + spec_dec(5) + seq![';'] + spec_dec(
            n as nat,
        ),
        Color::True(r, g, b) => spec_dec(48) + seq![';'] + spec_dec(2) + seq![';'] + spec_dec(
            r as nat,
        ) + seq![';'] + spec_dec(g as nat) + seq![';'] + spec_dec(b as nat),
    }
}

/// Renders "{a};{b};{n}", the code of a palette color.
fn palette_code(a: u8, b: u8, n: u8) -> (r: String)
    ensures
        r@ == spec_dec(a as nat) + seq![';'] + spec_dec(b as nat) + seq![';'] + spec_dec(n as nat),
{
    let mut s = u8_dec_str(a);
    s.append(";");
    s.append(u8_dec_str(b).as_str());
    s.append(";");
    s.append(u8_dec_str(n).as_str());
    proof {
        reveal_strlit(";");
        assert(s@ =~= spec_dec(a as nat) + seq![';'] + spec_dec(b as nat) + seq![';'] + spec_dec(
            n as nat,
        ));
    }
    s
}

/// Renders "{a};{b};{x};{y};{z}", the code of a true color.
fn true_code(a: u8, b: u8, x: u8, y: u8, z: u8) -> (r: String)
    ensures
        r@ == spec_dec(a as nat) + seq![';'] + spec_dec(b as nat) + seq![';'] + spec_dec(x as nat)
            + seq![';'] + spec_dec(y as nat) + seq![';'] + spec_dec(z as nat),
{
    let mut s = palette_code(a, b, x);
    s.append(";");
    s.append(u8_dec_str(y).as_str());
    s.append(";");
    s.append(u8_dec_str(z).as_str());
    proof {
        reveal_strlit(";");
        assert(s@ =~= spec_dec(a as nat) + seq![';'] + spec_dec(b as nat) + seq![';'] + spec_dec(
            x as nat,
        ) + seq![';'] + spec_dec(y as nat) + seq![';'] + spec_dec(z as nat));
    }
    s
}

impl Color {
    /// Parses a case-insensitive color name; any label outside the known-name
    /// table is rejected with `NameNotRecognized`.
    pub fn parse(s: &str) -> (r: Result<Color, NameNotRecognized>)
        ensures
            r == (match spec_parse(s@) {
                Some(c) => Ok::<Color, NameNotRecognized>(c),
                None => Err::<Color, NameNotRecognized>(NameNotRecognized),
            }),
    {
        if eq_lower(s, "black") {
            Ok(Color::Black)
        } else if eq_lower(s, "red") {
            Ok(Color::Red)
        } else if eq_lower(s, "green") {
            Ok(Color::Green)
        } else if eq_lower(s, "yellow") {
            Ok(Color::Yellow)
        } else if eq_lower(s, "blue") {
            Ok(Color::Blue)
        } else if eq_lower(s, "magenta") {
            Ok(Color::Magenta)
        } else if eq_lower(s, "purple") {
            Ok(Color::Magenta)
        } else if eq_lower(s, "cyan") {
            Ok(Color::Cyan)
        } else if eq_lower(s, "white") {
            Ok(Color::White)
        } else if eq_lower(s, "bright black") {
            Ok(Color::BrightBlack)
        } else if eq_lower(s, "bright red") {
            Ok(Color::BrightRed)
        } else if eq_lower(s, "bright green") {
            Ok(Color::BrightGreen)
        } else if eq_lower(s, "bright yellow") {
            Ok(Color::BrightYellow)
        } else if eq_lower(s, "bright blue") {
            Ok(Color::BrightBlue)
        } else if eq_lower(s, "bright magenta") {
            Ok(Color::BrightMagenta)
        } else if eq_lower(s, "bright cyan") {
            Ok(Color::BrightCyan)
        } else if eq_lower(s, "bright white") {
            Ok(Color::BrightWhite)
        } else {
            Err(NameNotRecognized)
        }
    }

    /// Parses a case-insensitive color name, substituting white for any label
    /// that names no known color.
    pub fn from_str_or_default(s: &str) -> (r: Color)
        ensures
            r == (match spec_parse(s@) {
                Some(c) => c,
                None => Color::White,
            }),
    {
        match Color::parse(s) {
            Ok(c) => c,
            Err(_) => Color::White,
        }
    }

    /// The ANSI SGR parameter string for this color in foreground position.
    pub fn to_fg_str(&self) -> (r: String)
        ensures
            r@ == spec_fg(*self),
    {
        match *self {
            Color::Black => u8_dec_str(30),
            Color::Red => u8_dec_str(31),
            Color::Green => u8_dec_str(32),
            Color::Yellow => u8_dec_str(33),
            Color::Blue => u8_dec_str(34),
            Color::Magenta => u8_dec_str(35),
            Color::Cyan => u8_dec_str(36),
            Color::White => u8_dec_str(37),
            Color::BrightBlack => u8_dec_str(90),
            Color::BrightRed => u8_dec_str(91),
            Color::BrightGreen => u8_dec_str(92),
            Color::BrightYellow => u8_dec_str(93),
            Color::BrightBlue => u8_dec_str(94),
            Color::BrightMagenta => u8_dec_str(95),
            Color::BrightCyan => u8_dec_str(96),
            Color::BrightWhite => u8_dec_str(97),
            Color::Palette(n) => palette_code(38, 5, n),
            Color::True(red, green, blue) => true_code(38, 2, red, green, blue),
        }
    }

    /// The ANSI SGR parameter string for this color in background position.
    pub fn to_bg_str(&self) -> (r: String)
        ensures
            r@ == spec_bg(*self),
    {
        match *self {
            Color::Black => u8_dec_str(40),
            Color::Red => u8_dec_str(41),
            Color::Green => u8_dec_str(42),
            Color::Yellow => u8_dec_str(43),
            Color::Blue => u8_dec_str(44),
            Color::Magenta => u8_dec_str(45),
            Color::Cyan => u8_dec_str(46),
            Color::White => u8_dec_str(47),
            Color::BrightBlack => u8_dec_str(100),
            Color::BrightRed => u8_dec_str(101),
            Color::BrightGreen => u8_dec_str(102),
            Color::BrightYellow => u8_dec_str(103),
            Color::BrightBlue => u8_dec_str(104),
            Color::BrightMagenta => u8_dec_str(105),
            Color::BrightCyan => u8_dec_str(106),
            Color::BrightWhite => u8_dec_str(107),
            Color::Palette(n) => palette_code(48, 5, n),
            Color::True(red, green, blue) => true_code(48, 2, red, green, blue),
        }
    }
}

impl core::str::FromStr for Color {
    type Err = ();

    fn from_str(s: &str) -> Result<Color, ()> {
        match Color::parse(s) {
            Ok(c) => Ok(c),
            Err(_) => Err(()),
        }
    }
}

impl<'a> From<&'a str> for Color {
    /// Parses a name, substituting white for an unrecognized label.
    fn from(src: &'a str) -> Color {
        Color::from_str_or_default(src)
    }
}

impl<'a> vstd::std_specs::convert::FromSpecImpl<&'a str> for Color {
    open spec fn obeys_from_spec() -> bool {
        true
    }

    open spec fn from_spec(src: &'a str) -> Color {
        match spec_parse(src@) {
            Some(c) => c,
            None => Color::White,
        }
    }
}

impl From<String> for Color {
    /// Parses a name, substituting white for an unrecognized label.
    fn from(src: String) -> Color {
        Color::from_str_or_default(src.as_str())
    }
}

impl vstd::std_specs::convert::FromSpecImpl<String> for Color {
    open spec fn obeys_from_spec() -> bool {
        true
    }

    open spec fn from_spec(src: String) -> Color {
        match spec_parse(src@) {
            Some(c) => c,
            None => Color::White,
        }
    }
}

/// Parsing is case-insensitive: two labels whose characters lowercase alike
/// parse to the same outcome, so every casing of a recognized name yields
/// that name's color.
pub proof fn lemma_parse_case_insensitive(s: Seq<char>, t: Seq<char>)
    requires
        s.len() == t.len(),
        forall|i: int| 0 <= i < s.len() ==> lower_char(s[i]) == lower_char(t[i]),
    ensures
        spec_parse(s) == spec_parse(t),
{
    assert(lower_seq(s) =~= lower_seq(t));
}

/// Rendering is total and never ambiguous between positions: every color has
/// a nonempty foreground code and a nonempty background code, and the two
/// codes differ.
pub proof fn lemma_codes_nonempty_disjoint(c: Color)
    ensures
        spec_fg(c).len() > 0,
        spec_bg(c).len() > 0,
        spec_fg(c) != spec_bg(c),
{
    reveal_with_fuel(spec_dec, 4);
    match c {
        Color::Palette(n) => {
            assert(spec_fg(c)[0] == '3');
            assert(spec_bg(c)[0] == '4');
        },
        Color::True(r, g, b) => {
            assert(spec_fg(c)[0] == '3');
            assert(spec_bg(c)[0] == '4');
        },
        _ => {
            assert(spec_fg(c)[0] != spec_bg(c)[0]);
        },
    }
}

/// Rendering is a pure function of the color: any two outputs that meet the
/// rendering contracts for one color are identical, so repeating a rendering
/// yields the same string.
pub proof fn lemma_render_idempotent(c: Color, fg1: Seq<char>, fg2: Seq<char>, bg1: Seq<char>, bg2: Seq<char>)
    requires
        fg1 == spec_fg(c),
        fg2 == spec_fg(c),
        bg1 == spec_bg(c),
        bg2 == spec_bg(c),
    ensures
        fg1 == fg2,
        bg1 == bg2,
{
}

} // verus!
