//! Colors, text styles and styled lines.
use vstd::prelude::*;

verus! {

/// A terminal color: the terminal's own default, a palette index, or RGB.
#[derive(Clone, Copy, Debug, PartialEq, Eq, Structural)]
pub enum Color {
    Reset,
    Indexed(u8),
    Rgb(u8, u8, u8),
}

/// Linear interpolation of one channel, `t` in thousandths.
pub open spec fn mix_channel(a: u8, b: u8, t: int) -> int {
    (a as int * (1000 - t) + b as int * t) / 1000
}

/// The blend of two colors at `t` thousandths of the way from `a` to `b`.
pub open spec fn blend_spec(a: Color, b: Color, t: int) -> Color {
    match (a, b) {
        (Color::Rgb(ar, ag, ab), Color::Rgb(br, bg, bb)) => Color::Rgb(
            mix_channel(ar, br, t) as u8,
            mix_channel(ag, bg, t) as u8,
            mix_channel(ab, bb, t) as u8,
        ),
        _ => b,
    }
}

fn mix(a: u8, b: u8, t: u32) -> (r: u8)
    requires
        t <= 1000,
    ensures
        r as int == mix_channel(a, b, t as int),
        t == 0 ==> r == a,
        t == 1000 ==> r == b,
{
    assert(a as u32 * (1000 - t) <= 255000 && b as u32 * t <= 255000) by (nonlinear_arith)
        requires
            t <= 1000,
    ;
    let x: u32 = a as u32 * (1000 - t);
    let y: u32 = b as u32 * t;
    assert(0 <= mix_channel(a, b, t as int) < 256) by (nonlinear_arith)
        requires
            t <= 1000,
    ;
    assert(t == 0 ==> mix_channel(a, b, t as int) == a as int) by (nonlinear_arith);
    assert(t == 1000 ==> mix_channel(a, b, t as int) == b as int) by (nonlinear_arith);
    ((x + y) / 1000) as u8
}

/// Blends two colors linearly per RGB channel, `t` in thousandths (0 gives
/// `a`, 1000 gives `b`). When either color is not RGB, `b` is returned as is.
pub fn blend_color(a: Color, b: Color, t: u32) -> (r: Color)
    requires
        a is Rgb && b is Rgb ==> t <= 1000,
    ensures
        r == blend_spec(a, b, t as int),
        t == 0 && a is Rgb && b is Rgb ==> r == a,
        t == 1000 ==> r == b,
        !(a is Rgb && b is Rgb) ==> r == b,
{
    match (a, b) {
        (Color::Rgb(ar, ag, ab), Color::Rgb(br, bg, bb)) => Color::Rgb(
            mix(ar, br, t),
            mix(ag, bg, t),
            mix(ab, bb, t),
        ),
        _ => b,
    }
}

/// Foreground and background colors (`None` leaves the one beneath) and
/// text modifiers.
#[derive(Clone, Copy, Debug, PartialEq, Eq, Structural)]
pub struct Style {
    pub fg: Option<Color>,
    pub bg: Option<Color>,
    pub bold: bool,
    pub italic: bool,
    pub crossed_out: bool,
    pub underlined: bool,
}

pub open spec fn plain_spec() -> Style {
    Style { fg: None, bg: None, bold: false, italic: false, crossed_out: false, underlined: false }
}

impl Style {
    /// No colors and no modifiers.
    pub fn plain() -> (r: Style)
        ensures
            r == plain_spec(),
    {
        Style { fg: None, bg: None, bold: false, italic: false, crossed_out: false, underlined: false }
    }

    /// Only a foreground color.
    pub fn fg(c: Color) -> (r: Style)
        ensures
            r == (Style { fg: Some(c), ..plain_spec() }),
    {
        Style { fg: Some(c), ..Style::plain() }
    }

    /// Only a background color.
    pub fn bg(c: Color) -> (r: Style)
        ensures
            r == (Style { bg: Some(c), ..plain_spec() }),
    {
        Style { bg: Some(c), ..Style::plain() }
    }
}

/// A run of text in one style.
#[derive(Clone, Debug)]
pub struct Span {
    pub content: String,
    pub style: Style,
}

pub struct SpanView {
    pub content: Seq<char>,
    pub style: Style,
}

impl View for Span {
    type V = SpanView;

    open spec fn view(&self) -> SpanView {
        SpanView { content: self.content@, style: self.style }
    }
}

/// One line of styled text; `style` applies to the whole row (a code
/// block's background).
#[derive(Clone, Debug)]
pub struct Line {
    pub spans: Vec<Span>,
    pub style: Style,
}

pub struct LineView {
    pub spans: Seq<SpanView>,
    pub style: Style,
}

pub open spec fn spans_view(v: Seq<Span>) -> Seq<SpanView> {
    v.map_values(|s: Span| s@)
}

impl View for Line {
    type V = LineView;

    open spec fn view(&self) -> LineView {
        LineView { spans: spans_view(self.spans@), style: self.style }
    }
}

pub open spec fn lines_view(v: Seq<Line>) -> Seq<LineView> {
    v.map_values(|l: Line| l@)
}

/// The text of a line: its spans' contents one after another.
pub open spec fn line_text(spans: Seq<SpanView>) -> Seq<char>
    decreases spans.len(),
{
    if spans.len() == 0 {
        Seq::empty()
    } else {
        line_text(spans.drop_last()) + spans.last().content
    }
}

/// A line without spans or background: an empty row.
pub open spec fn is_blank_line(l: LineView) -> bool {
    l.spans.len() == 0 && l.style.bg is None
}

} // verus!
