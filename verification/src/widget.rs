use vstd::prelude::*;
use vstd::string::StringExecFns;
use crate::render::Color;
use crate::text::char_to_string;

verus! {

/// How a piece of text is drawn: its foreground and background colors,
/// where they are set.
#[derive(Clone, Copy, Debug, PartialEq, Eq, Structural)]
pub struct Style {
    pub fg: Option<Color>,
    pub bg: Option<Color>,
}

impl Style {
    /// The style that sets nothing.
    pub fn new() -> (result: Style)
        ensures
            result == (Style { fg: None, bg: None }),
    {
        Style { fg: None, bg: None }
    }
}

/// A piece of text drawn in one style.
#[derive(Clone, Debug, PartialEq, Eq)]
pub struct Span {
    pub content: String,
    pub style: Style,
}

impl View for Span {
    type V = (Seq<char>, Style);

    open spec fn view(&self) -> (Seq<char>, Style) {
        (self.content@, self.style)
    }
}

/// The text and style of each span.
pub open spec fn span_views(spans: Seq<Span>) -> Seq<(Seq<char>, Style)> {
    spans.map_values(|span: Span| span@)
}

/// Text in the default style.
pub open spec fn plain(text: Seq<char>) -> (Seq<char>, Style) {
    (text, Style { fg: None, bg: None })
}

/// The same text with its foreground set.
pub open spec fn with_fg(span: (Seq<char>, Style), color: Color) -> (Seq<char>, Style) {
    (span.0, Style { fg: Some(color), bg: span.1.bg })
}

/// The same text with its background set.
pub open spec fn with_bg(span: (Seq<char>, Style), color: Color) -> (Seq<char>, Style) {
    (span.0, Style { fg: span.1.fg, bg: Some(color) })
}

impl Span {
    /// A span of `content` in the default style.
    pub fn raw(content: String) -> (result: Span)
        ensures
            result@ == plain(content@),
    {
        Span { content, style: Style::new() }
    }

    /// A span of the characters of `content` in the default style.
    pub fn from_str(content: &str) -> (result: Span)
        ensures
            result@ == plain(content@),
    {
        Span::raw(String::from_str(content))
    }

    /// The same text with the foreground `color`.
    pub fn fg(self, color: Color) -> (result: Span)
        ensures
            result@ == with_fg(self@, color),
    {
        Span { content: self.content, style: Style { fg: Some(color), bg: self.style.bg } }
    }

    /// The same text on the background `color`.
    pub fn bg(self, color: Color) -> (result: Span)
        ensures
            result@ == with_bg(self@, color),
    {
        Span { content: self.content, style: Style { fg: self.style.fg, bg: Some(color) } }
    }
}

/// A line of spans, drawn over a background style.
#[derive(Clone, Debug, PartialEq, Eq)]
pub struct Line {
    pub spans: Vec<Span>,
    pub style: Style,
}

/// A rectangle of terminal cells.
#[derive(Clone, Copy, Debug, PartialEq, Eq, Structural)]
pub struct Rect {
    pub x: u16,
    pub y: u16,
    pub width: u16,
    pub height: u16,
}

/// `a + b`, or the largest `u16` when that does not fit.
pub open spec fn saturating_add_u16(a: u16, b: u16) -> u16 {
    if a + b > u16::MAX { u16::MAX } else { (a + b) as u16 }
}

/// `a - b`, or zero when that is negative.
pub open spec fn saturating_sub_u16(a: u16, b: u16) -> u16 {
    if a < b { 0 } else { (a - b) as u16 }
}

pub open spec fn min_u16(a: u16, b: u16) -> u16 {
    if a <= b { a } else { b }
}

/// `value` limited to `low ..= high`.
pub open spec fn clamp_u16(value: u16, low: u16, high: u16) -> u16 {
    if value < low { low } else if value > high { high } else { value }
}

impl Rect {
    /// The rectangle at `x`, `y` of the given size, shrunk so that its
    /// right and bottom edges fit in a `u16`.
    pub open spec fn spec_new(x: u16, y: u16, width: u16, height: u16) -> Rect {
        Rect {
            x,
            y,
            width: (saturating_add_u16(x, width) - x) as u16,
            height: (saturating_add_u16(y, height) - y) as u16,
        }
    }

    pub fn new(x: u16, y: u16, width: u16, height: u16) -> (result: Rect)
        ensures
            result == Rect::spec_new(x, y, width, height),
    {
        Rect { x, y, width: x.saturating_add(width) - x, height: y.saturating_add(height) - y }
    }

    /// The column just past the rectangle.
    pub open spec fn spec_right(self) -> u16 {
        saturating_add_u16(self.x, self.width)
    }

    /// The row just below the rectangle.
    pub open spec fn spec_bottom(self) -> u16 {
        saturating_add_u16(self.y, self.height)
    }

    pub fn right(self) -> (result: u16)
        ensures
            result == self.spec_right(),
    {
        self.x.saturating_add(self.width)
    }

    pub fn bottom(self) -> (result: u16)
        ensures
            result == self.spec_bottom(),
    {
        self.y.saturating_add(self.height)
    }

    /// This rectangle shrunk to the size of `other` where it is larger, and
    /// moved inside `other`.
    pub open spec fn spec_clamp(self, other: Rect) -> Rect {
        let width = min_u16(self.width, other.width);
        let height = min_u16(self.height, other.height);
        let x = clamp_u16(self.x, other.x, saturating_sub_u16(other.spec_right(), width));
        let y = clamp_u16(self.y, other.y, saturating_sub_u16(other.spec_bottom(), height));
        Rect::spec_new(x, y, width, height)
    }

    /// Moves and shrinks this rectangle to fit inside `other`, as ratatui's
    /// `Rect::clamp` does.
    pub fn clamp(self, other: Rect) -> (result: Rect)
        requires
            other.x + other.width <= u16::MAX,
            other.y + other.height <= u16::MAX,
        ensures
            result == self.spec_clamp(other),
            other.x <= result.x,
            result.x + result.width <= other.x + other.width,
            other.y <= result.y,
            result.y + result.height <= other.y + other.height,
            result.width == min_u16(self.width, other.width),
            result.height == min_u16(self.height, other.height),
    {
        let width = if self.width <= other.width { self.width } else { other.width };
        let height = if self.height <= other.height { self.height } else { other.height };
        let max_x = other.right().saturating_sub(width);
        let max_y = other.bottom().saturating_sub(height);
        let x = if self.x < other.x { other.x } else if self.x > max_x { max_x } else { self.x };
        let y = if self.y < other.y { other.y } else if self.y > max_y { max_y } else { self.y };
        Rect::new(x, y, width, height)
    }
}

/// The lowercase hexadecimal digit of a value below 16.
pub open spec fn hex_digit(value: int) -> char {
    if value < 10 {
        ('0' as int + value) as char
    } else {
        ('a' as int + value - 10) as char
    }
}

pub(crate) fn hex_digit_exec(value: u8) -> (result: char)
    requires
        value < 16,
    ensures
        result == hex_digit(value as int),
{
    if value < 10 {
        (48u8 + value) as char
    } else {
        (97u8 + value - 10) as char
    }
}

/// The lowercase hexadecimal digits of `value`, with leading zeros up to
/// `width` digits.
pub open spec fn hex_digits(value: nat, width: nat) -> Seq<char>
    decreases value + width,
{
    if value < 16 && width <= 1 {
        seq![hex_digit(value as int)]
    } else {
        hex_digits(value / 16, if width > 0 { (width - 1) as nat } else { 0 }) + seq![
            hex_digit((value % 16) as int),
        ]
    }
}

/// Appends the digits of `value`, padded with zeros to `width` digits.
pub(crate) fn push_hex_digits(value: usize, width: usize, out: &mut String)
    ensures
        final(out)@ == old(out)@ + hex_digits(value as nat, width as nat),
    decreases value + width,
{
    if value < 16 && width <= 1 {
        let digit = char_to_string(hex_digit_exec(value as u8));
        out.append(digit.as_str());
    } else {
        let next_width = if width > 0 { width - 1 } else { 0 };
        push_hex_digits(value / 16, next_width, out);
        let digit = char_to_string(hex_digit_exec((value % 16) as u8));
        out.append(digit.as_str());
    }
}

} // verus!
