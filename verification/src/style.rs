//! Colors, font attributes and the styles that SGR parameters describe.

use vstd::prelude::*;
use vstd::slice::slice_subrange;
use crate::text::{byte_of, chars_of, marks, parse_byte, split, split_spans};

verus! {

/// A terminal color: one of the eight named colors, one of 256 indexed colors,
/// or red, green and blue of eight bits each.
#[derive(Debug, Clone, Copy, PartialEq, Eq, Structural)]
pub enum Color {
    Black,
    Red,
    Green,
    Yellow,
    Blue,
    Purple,
    Cyan,
    White,
    Fixed(u8),
    RGB(u8, u8, u8),
}

/// Three font attributes, each on or off. All off is the plain font.
#[derive(Debug, Clone, Copy, PartialEq, Eq, Structural)]
pub struct FontStyle {
    pub bold: bool,
    pub italic: bool,
    pub underline: bool,
}

impl FontStyle {
    /// The font style with the given attributes.
    pub open spec fn of(bold: bool, italic: bool, underline: bool) -> FontStyle {
        FontStyle { bold, italic, underline }
    }

    /// Bold and nothing else.
    pub fn bold() -> (font: Self)
        ensures
            font == FontStyle::of(true, false, false),
    {
        FontStyle { bold: true, italic: false, underline: false }
    }

    /// Italic and nothing else.
    pub fn italic() -> (font: Self)
        ensures
            font == FontStyle::of(false, true, false),
    {
        FontStyle { bold: false, italic: true, underline: false }
    }

    /// Underlined and nothing else.
    pub fn underline() -> (font: Self)
        ensures
            font == FontStyle::of(false, false, true),
    {
        FontStyle { bold: false, italic: false, underline: true }
    }
}

impl Default for FontStyle {
    /// The plain font: no attribute is on.
    fn default() -> (font: Self)
        ensures
            font == FontStyle::of(false, false, false),
    {
        FontStyle { bold: false, italic: false, underline: false }
    }
}

/// How a piece of text is shown. A color that is `None` is the terminal's
/// default color.
#[derive(Debug, Clone, Copy, PartialEq, Eq, Structural)]
pub struct Style {
    pub foreground: Option<Color>,
    pub background: Option<Color>,
    pub font_style: FontStyle,
}

/// The named color with number `n`, counted from black; white for every
/// number above six.
pub open spec fn named_color(n: int) -> Color {
    if n == 0 {
        Color::Black
    } else if n == 1 {
        Color::Red
    } else if n == 2 {
        Color::Green
    } else if n == 3 {
        Color::Yellow
    } else if n == 4 {
        Color::Blue
    } else if n == 5 {
        Color::Purple
    } else if n == 6 {
        Color::Cyan
    } else {
        Color::White
    }
}

/// The extended color that `args` begins with, and how many parameters it
/// takes up: `5` and an index, or `2` and red, green and blue. `None` where
/// `args` begins with neither or ends too early.
pub open spec fn extended_color(args: Seq<u8>) -> Option<(Color, nat)> {
    if args.len() >= 2 && args[0] == 5 {
        Some((Color::Fixed(args[1]), 2nat))
    } else if args.len() >= 4 && args[0] == 2 {
        Some((Color::RGB(args[1], args[2], args[3]), 4nat))
    } else {
        None
    }
}

/// The SGR parameters that `code` lists between semicolons. `None` unless
/// every piece spells a byte.
pub open spec fn sgr_codes(code: Seq<char>) -> Option<Seq<u8>> {
    let tokens = split(code, ';');
    if forall|i: int| 0 <= i < tokens.len() ==> byte_of(#[trigger] tokens[i]) is Some {
        Some(tokens.map_values(|token: Seq<char>| byte_of(token).unwrap()))
    } else {
        None
    }
}

impl Style {
    /// The style that `style` refers to, if any.
    pub open spec fn copied(style: Option<&Style>) -> Option<Style> {
        match style {
            Some(style) => Some(*style),
            None => None,
        }
    }

    /// No colors and the plain font.
    pub open spec fn plain() -> Style {
        Style { foreground: None, background: None, font_style: FontStyle::of(false, false, false) }
    }

    /// The style that the instruction at the head of `codes` makes of `self`,
    /// and how many parameters the instruction takes up. `None` where the head
    /// is no instruction or an extended color is cut short.
    pub open spec fn step(self, codes: Seq<u8>) -> Option<(Style, nat)>
        recommends
            codes.len() > 0,
    {
        let code = codes[0];
        if code == 0 {
            Some((Style { font_style: FontStyle::of(false, false, false), ..self }, 1nat))
        } else if code == 1 {
            Some((Style { font_style: FontStyle { bold: true, ..self.font_style }, ..self }, 1nat))
        } else if code == 3 {
            Some(
                (Style { font_style: FontStyle { italic: true, ..self.font_style }, ..self }, 1nat),
            )
        } else if code == 4 {
            Some(
                (
                    Style { font_style: FontStyle { underline: true, ..self.font_style }, ..self },
                    1nat,
                ),
            )
        } else if 30 <= code <= 37 {
            Some((Style { foreground: Some(named_color(code - 30)), ..self }, 1nat))
        } else if code == 38 {
            match extended_color(codes.skip(1)) {
                Some((color, used)) => Some((Style { foreground: Some(color), ..self }, 1 + used)),
                None => None,
            }
        } else if code == 39 {
            Some((Style { foreground: None, ..self }, 1nat))
        } else if 40 <= code <= 47 {
            Some((Style { background: Some(named_color(code - 40)), ..self }, 1nat))
        } else if code == 48 {
            match extended_color(codes.skip(1)) {
                Some((color, used)) => Some((Style { background: Some(color), ..self }, 1 + used)),
                None => None,
            }
        } else if code == 49 {
            Some((Style { background: None, ..self }, 1nat))
        } else {
            None
        }
    }

    /// The style that the instructions in `codes` make of `self`, taken from
    /// left to right up to the first parameter that is no instruction.
    pub open spec fn apply(self, codes: Seq<u8>) -> Style
        decreases codes.len(),
    {
        if codes.len() == 0 {
            self
        } else {
            match self.step(codes) {
                Some((next, used)) => next.apply(codes.skip(used as int)),
                None => self,
            }
        }
    }

    /// The style that the SGR sequence `code` describes, starting from no
    /// colors and the plain font. `None` unless every piece between the
    /// semicolons spells a byte.
    pub open spec fn of_ansi_sequence(code: Seq<char>) -> Option<Style> {
        match sgr_codes(code) {
            Some(codes) => Some(Style::plain().apply(codes)),
            None => None,
        }
    }

    /// Parse ANSI escape sequences like `38;2;255;0;100;1;4` (pink, bold,
    /// underlined).
    pub fn from_ansi_sequence(code: &str) -> (style: Option<Style>)
        ensures
            style == Style::of_ansi_sequence(code@),
    {
        let chars = chars_of(code);
        Style::from_ansi_chars(chars.as_slice())
    }

    /// Parse an ANSI escape sequence that is given by its characters.
    pub fn from_ansi_chars(code: &[char]) -> (style: Option<Style>)
        ensures
            style == Style::of_ansi_sequence(code@),
    {
        let codes = match parse_codes(code) {
            Some(codes) => codes,
            None => {
                return None;
            },
        };
        let n: usize = codes.len();
        let mut style = Style {
            foreground: None,
            background: None,
            font_style: FontStyle::default(),
        };
        let mut i: usize = 0;
        assert(codes@.skip(0) =~= codes@);
        while i < n
            invariant
                i <= n,
                n == codes.len(),
                sgr_codes(code@) == Some(codes@),
                Style::plain().apply(codes@) == style.apply(codes@.skip(i as int)),
            decreases n - i,
        {
            match style.instruction_at(codes.as_slice(), i) {
                Some((next, used)) => {
                    assert(codes@.skip(i as int).skip(used as int) =~= codes@.skip(i + used));
                    style = next;
                    i += used;
                },
                None => {
                    return Some(style);
                },
            }
        }
        Some(style)
    }

    /// The style that the instruction at place `i` of `codes` makes of `self`,
    /// and how many parameters the instruction takes up.
    fn instruction_at(self, codes: &[u8], i: usize) -> (next: Option<(Style, usize)>)
        requires
            i < codes.len(),
        ensures
            match next {
                Some((style, used)) => self.step(codes@.skip(i as int)) == Some(
                    (style, used as nat),
                ) && 0 < used <= codes.len() - i,
                None => self.step(codes@.skip(i as int)) is None,
            },
    {
        let code: u8 = codes[i];
        let mut style = self;
        if code == 0 {
            style.font_style = FontStyle::default();
        } else if code == 1 {
            style.font_style.bold = true;
        } else if code == 3 {
            style.font_style.italic = true;
        } else if code == 4 {
            style.font_style.underline = true;
        } else if 30 <= code && code <= 37 {
            style.foreground = Some(named(code - 30));
        } else if code == 38 {
            match extended_at(codes, i + 1) {
                Some((color, used)) => {
                    assert(codes@.skip(i as int).skip(1) =~= codes@.skip(i + 1));
                    style.foreground = Some(color);
                    return Some((style, 1 + used));
                },
                None => {
                    assert(codes@.skip(i as int).skip(1) =~= codes@.skip(i + 1));
                    return None;
                },
            }
        } else if code == 39 {
            style.foreground = None;
        } else if 40 <= code && code <= 47 {
            style.background = Some(named(code - 40));
        } else if code == 48 {
            match extended_at(codes, i + 1) {
                Some((color, used)) => {
                    assert(codes@.skip(i as int).skip(1) =~= codes@.skip(i + 1));
                    style.background = Some(color);
                    return Some((style, 1 + used));
                },
                None => {
                    assert(codes@.skip(i as int).skip(1) =~= codes@.skip(i + 1));
                    return None;
                },
            }
        } else if code == 49 {
            style.background = None;
        } else {
            return None;
        }
        Some((style, 1))
    }
}

/// The extended color whose parameters begin at place `i` of `codes`, and how
/// many parameters it takes up.
fn extended_at(codes: &[u8], i: usize) -> (color: Option<(Color, usize)>)
    requires
        i <= codes.len(),
    ensures
        match color {
            Some((color, used)) => extended_color(codes@.skip(i as int)) == Some(
                (color, used as nat),
            ) && used <= codes.len() - i,
            None => extended_color(codes@.skip(i as int)) is None,
        },
{
    let left: usize = codes.len() - i;
    if left >= 2 && codes[i] == 5 {
        Some((Color::Fixed(codes[i + 1]), 2))
    } else if left >= 4 && codes[i] == 2 {
        Some((Color::RGB(codes[i + 1], codes[i + 2], codes[i + 3]), 4))
    } else {
        None
    }
}

/// The named color with number `n`, counted from black.
fn named(n: u8) -> (color: Color)
    requires
        n < 8,
    ensures
        color == named_color(n as int),
{
    if n == 0 {
        Color::Black
    } else if n == 1 {
        Color::Red
    } else if n == 2 {
        Color::Green
    } else if n == 3 {
        Color::Yellow
    } else if n == 4 {
        Color::Blue
    } else if n == 5 {
        Color::Purple
    } else if n == 6 {
        Color::Cyan
    } else {
        Color::White
    }
}

/// Reads the SGR parameters that `code` lists between semicolons.
pub fn parse_codes(code: &[char]) -> (codes: Option<Vec<u8>>)
    ensures
        match codes {
            Some(codes) => sgr_codes(code@) == Some(codes@),
            None => sgr_codes(code@) is None,
        },
{
    let spans = split_spans(code, ';');
    let ghost tokens = split(code@, ';');
    let mut codes: Vec<u8> = Vec::new();
    let mut k: usize = 0;
    while k < spans.len()
        invariant
            k <= spans.len(),
            tokens == split(code@, ';'),
            marks(spans@, code@, tokens),
            codes.len() == k,
            forall|j: int| 0 <= j < k ==> byte_of(#[trigger] tokens[j]) == Some(codes@[j]),
        decreases spans.len() - k,
    {
        let span = spans[k];
        let token = slice_subrange(code, span.start, span.end);
        match parse_byte(token) {
            Some(byte) => {
                codes.push(byte);
            },
            None => {
                assert(byte_of(tokens[k as int]) is None);
                return None;
            },
        }
        k += 1;
    }
    assert(codes@ =~= tokens.map_values(|token: Seq<char>| byte_of(token).unwrap()));
    Some(codes)
}

} // verus!
