//! The slide compiler: markdown events to styled slides.
use vstd::prelude::*;
use crate::directive::{directive_of, DirectiveView};
use crate::events::EventView;
use crate::frontmatter::{FrontmatterView, SlideLayout, TransitionKind};
use crate::style::{is_blank_line, line_text, lines_view, plain_spec, Line, LineView, SpanView, Style};
use crate::text::{decimal, has_visible, split_nl, trim};
use crate::theme::Theme;

verus! {

/// Rows reserved in a slide's text for each image.
pub const IMAGE_PLACEHOLDER_HEIGHT: u16 = 15;

/// Marker line that separates the two columns of a two-column slide.
pub open spec fn column_marker() -> Seq<char> {
    "|||"@
}

pub struct ImageView {
    pub path: Seq<char>,
    pub line_index: usize,
    pub height: u16,
    pub pixel_width: u32,
    pub pixel_height: u32,
    pub max_width_percent: Option<u32>,
}

pub struct SlideView {
    pub layout: SlideLayout,
    pub content: Seq<LineView>,
    pub right_content: Option<Seq<LineView>>,
    pub images: Seq<ImageView>,
    pub transition: TransitionKind,
}

/// An open list: bullets, or numbers with the next number to give.
#[derive(Clone, Copy, Debug, PartialEq, Eq, Structural)]
pub enum ListKind {
    Unordered,
    Ordered(u64),
}

/// The compiler's whole state, as values.
pub struct ConvView {
    pub theme: Theme,
    pub slides: Seq<SlideView>,
    pub lines: Seq<LineView>,
    pub spans: Seq<SpanView>,
    pub styles: Seq<Style>,
    pub lists: Seq<ListKind>,
    pub in_code: bool,
    pub in_quote: bool,
    pub in_image: bool,
    pub in_heading: bool,
    pub heading: Seq<char>,
    pub images: Seq<ImageView>,
    pub pending_layout: Option<SlideLayout>,
    pub pending_transition: Option<TransitionKind>,
    pub pending_figlet: Option<Option<Seq<char>>>,
    pub pending_width: Option<u32>,
    pub default_layout: Option<SlideLayout>,
    pub default_transition: Option<TransitionKind>,
    pub default_width: Option<u32>,
    pub default_figlet: Option<Option<Seq<char>>>,
    pub banners: Seq<Option<Seq<char>>>,
    pub banner_next: int,
    pub requests: Seq<(Seq<char>, Option<Seq<char>>)>,
}

/// Directive precedence: the slide's own, else the document's, else `fallback`.
pub open spec fn resolve<T>(pending: Option<T>, default: Option<T>, fallback: T) -> T {
    match pending {
        Some(v) => v,
        None => match default {
            Some(v) => v,
            None => fallback,
        },
    }
}

pub open spec fn span_v(content: Seq<char>, style: Style) -> SpanView {
    SpanView { content, style }
}

pub open spec fn blank_v() -> LineView {
    LineView { spans: Seq::empty(), style: plain_spec() }
}

/// A code block's padding row: no text, the surface color behind it.
pub open spec fn pad_v(t: Theme) -> LineView {
    LineView { spans: Seq::empty(), style: Style { bg: Some(t.surface), ..plain_spec() } }
}

pub open spec fn code_style(t: Theme) -> Style {
    Style { fg: Some(t.fg), bg: Some(t.surface), ..plain_spec() }
}

pub open spec fn inline_code_style(t: Theme) -> Style {
    Style { fg: Some(t.inline_code_fg), bg: Some(t.surface), ..plain_spec() }
}

pub open spec fn heading_style(t: Theme, level: u8) -> Style {
    let c = if level == 1 {
        t.h1
    } else if level == 2 {
        t.h2
    } else if level == 3 {
        t.h3
    } else {
        t.h4
    };
    Style { fg: Some(c), bold: true, ..plain_spec() }
}

pub open spec fn cur_style(st: ConvView) -> Style {
    if st.styles.len() > 0 {
        st.styles.last()
    } else {
        plain_spec()
    }
}

pub open spec fn with_style(st: ConvView, s: Style) -> ConvView {
    ConvView { styles: st.styles.push(s), ..st }
}

pub open spec fn pop_style(st: ConvView) -> ConvView {
    if st.styles.len() > 1 {
        ConvView { styles: st.styles.drop_last(), ..st }
    } else {
        st
    }
}

pub open spec fn add_span(st: ConvView, s: SpanView) -> ConvView {
    ConvView { spans: st.spans.push(s), ..st }
}

pub open spec fn add_line(st: ConvView, l: LineView) -> ConvView {
    ConvView { lines: st.lines.push(l), ..st }
}

/// The line that the pending spans make: behind a quote marker inside a
/// quote, on the surface color inside a code block.
pub open spec fn flushed_line(st: ConvView) -> LineView {
    if st.in_quote {
        LineView {
            spans: seq![span_v("│ "@, Style { fg: Some(st.theme.block_quote_prefix), ..plain_spec() })]
                + st.spans,
            style: plain_spec(),
        }
    } else if st.in_code {
        LineView { spans: st.spans, style: Style { bg: Some(st.theme.surface), ..plain_spec() } }
    } else {
        LineView { spans: st.spans, style: plain_spec() }
    }
}

pub open spec fn flush_line(st: ConvView) -> ConvView {
    ConvView { lines: st.lines.push(flushed_line(st)), spans: Seq::empty(), ..st }
}

pub open spec fn flush_pending(st: ConvView) -> ConvView {
    if st.spans.len() > 0 {
        flush_line(st)
    } else {
        st
    }
}

/// `lines` without its trailing blank lines.
pub open spec fn trim_blank(lines: Seq<LineView>) -> Seq<LineView>
    decreases lines.len(),
{
    if lines.len() > 0 && is_blank_line(lines.last()) {
        trim_blank(lines.drop_last())
    } else {
        lines
    }
}

/// `lines` without its trailing lines that hold no span.
pub open spec fn trim_empty_end(lines: Seq<LineView>) -> Seq<LineView>
    decreases lines.len(),
{
    if lines.len() > 0 && lines.last().spans.len() == 0 {
        trim_empty_end(lines.drop_last())
    } else {
        lines
    }
}

/// `lines` without its leading lines that hold no span.
pub open spec fn trim_empty_start(lines: Seq<LineView>) -> Seq<LineView>
    decreases lines.len(),
{
    if lines.len() > 0 && lines[0].spans.len() == 0 {
        trim_empty_start(lines.drop_first())
    } else {
        lines
    }
}

pub open spec fn is_marker_line(l: LineView) -> bool {
    trim(line_text(l.spans)) == column_marker()
}

/// Index of the first column marker line.
pub open spec fn marker_index(lines: Seq<LineView>) -> Option<int>
    decreases lines.len(),
{
    if lines.len() == 0 {
        None
    } else if is_marker_line(lines[0]) {
        Some(0)
    } else {
        match marker_index(lines.drop_first()) {
            Some(i) => Some(i + 1),
            None => None,
        }
    }
}

/// The two columns of a slide's lines: those before the first marker line
/// and those after it, with blank edges trimmed; all lines and no right
/// column when there is no marker.
pub open spec fn split_columns(lines: Seq<LineView>) -> (Seq<LineView>, Option<Seq<LineView>>) {
    match marker_index(lines) {
        Some(i) => (
            trim_empty_end(lines.subrange(0, i)),
            Some(trim_empty_start(trim_empty_end(lines.subrange(i + 1, lines.len() as int)))),
        ),
        None => (lines, None),
    }
}

/// Ends the current slide: it is kept if any line remains once trailing
/// blank lines are trimmed.
pub open spec fn flush_slide(st: ConvView) -> ConvView {
    let s1 = flush_pending(st);
    let body = trim_blank(s1.lines);
    let transition = resolve(s1.pending_transition, s1.default_transition, TransitionKind::SlideIn);
    if body.len() > 0 {
        let layout = resolve(s1.pending_layout, s1.default_layout, SlideLayout::Default);
        let cols = if layout == SlideLayout::TwoColumn {
            split_columns(body)
        } else {
            (body, None)
        };
        let slide = SlideView {
            layout,
            content: cols.0,
            right_content: cols.1,
            images: s1.images,
            transition,
        };
        ConvView {
            slides: s1.slides.push(slide),
            lines: Seq::empty(),
            images: Seq::empty(),
            pending_figlet: None,
            pending_transition: None,
            pending_layout: None,
            ..s1
        }
    } else {
        ConvView {
            lines: Seq::empty(),
            images: Seq::empty(),
            pending_figlet: None,
            pending_transition: None,
            ..s1
        }
    }
}

pub open spec fn blank_lines(n: nat) -> Seq<LineView> {
    Seq::new(n, |i: int| blank_v())
}

pub open spec fn start_image(st: ConvView, path: Seq<char>) -> ConvView {
    let s1 = flush_pending(st);
    let img = ImageView {
        path,
        line_index: s1.lines.len() as usize,
        height: IMAGE_PLACEHOLDER_HEIGHT,
        pixel_width: 0,
        pixel_height: 0,
        max_width_percent: match s1.pending_width {
            Some(w) => Some(w),
            None => s1.default_width,
        },
    };
    ConvView {
        in_image: true,
        images: s1.images.push(img),
        pending_width: None,
        lines: s1.lines + blank_lines(IMAGE_PLACEHOLDER_HEIGHT as nat),
        ..s1
    }
}

pub open spec fn apply_directive(st: ConvView, html: Seq<char>) -> ConvView {
    match directive_of(html) {
        Some(DirectiveView::Layout(l)) => ConvView { pending_layout: Some(l), ..st },
        Some(DirectiveView::Transition(t)) => ConvView { pending_transition: Some(t), ..st },
        Some(DirectiveView::Figlet(f)) => ConvView { pending_figlet: Some(f), ..st },
        Some(DirectiveView::ImageMaxWidth(p)) => ConvView { pending_width: Some(p), ..st },
        None => st,
    }
}

pub open spec fn centered_now(st: ConvView) -> bool {
    match st.pending_layout {
        Some(l) => l == SlideLayout::Center,
        None => st.default_layout == Some(SlideLayout::Center),
    }
}

pub open spec fn start_heading(st: ConvView, level: u8) -> ConvView {
    let s1 = with_style(st, heading_style(st.theme, level));
    if s1.pending_figlet is Some || s1.default_figlet is Some {
        ConvView {
            pending_figlet: if s1.pending_figlet is None {
                s1.default_figlet
            } else {
                s1.pending_figlet
            },
            in_heading: true,
            heading: Seq::empty(),
            ..s1
        }
    } else if centered_now(s1) {
        s1
    } else {
        add_span(s1, span_v("# "@, cur_style(s1)))
    }
}

/// Number of leading banner rows kept: up to the last one with a visible
/// character.
pub open spec fn art_end(rows: Seq<Seq<char>>) -> int
    decreases rows.len(),
{
    if rows.len() == 0 {
        0
    } else if has_visible(rows.last()) {
        rows.len() as int
    } else {
        art_end(rows.drop_last())
    }
}

/// The lines of banner art, each one span in `style`.
pub open spec fn banner_lines(art: Seq<char>, style: Style) -> Seq<LineView> {
    let rows = split_nl(art);
    rows.subrange(0, art_end(rows)).map_values(|r: Seq<char>| banner_row(r, style))
}

pub open spec fn banner_row(r: Seq<char>, style: Style) -> LineView {
    LineView { spans: seq![span_v(r, style)], style: plain_spec() }
}

/// A banner heading: the next banner result is used if there is one and
/// succeeded, else the heading text is set as one plain line.
pub open spec fn render_banner(st: ConvView, text: Seq<char>, style: Style) -> ConvView {
    let style2 = Style { underlined: false, ..style };
    let font = match st.pending_figlet {
        Some(Some(f)) => Some(f),
        _ => None,
    };
    let has = 0 <= st.banner_next < st.banners.len();
    let art = if has {
        st.banners[st.banner_next]
    } else {
        None
    };
    let s1 = ConvView {
        requests: st.requests.push((text, font)),
        banner_next: if has {
            st.banner_next + 1
        } else {
            st.banner_next
        },
        ..st
    };
    match art {
        None => flush_line(add_span(s1, span_v(text, style2))),
        Some(a) => ConvView { lines: s1.lines + banner_lines(a, style2), ..s1 },
    }
}

pub open spec fn end_heading(st: ConvView) -> ConvView {
    let s1 = if st.in_heading {
        let s0 = ConvView { in_heading: false, spans: Seq::empty(), ..st };
        add_line(render_banner(s0, st.heading, cur_style(st)), blank_v())
    } else {
        add_line(flush_line(st), blank_v())
    };
    pop_style(s1)
}

pub open spec fn start_code_block(st: ConvView) -> ConvView {
    let s1 = flush_line(ConvView { in_code: true, ..st });
    let l = s1.lines;
    let s2 = if l.len() > 0 && l.last().spans.len() == 0 && !(l.len() >= 2 && l[l.len()
        - 2].style.bg is Some) {
        ConvView { lines: l.drop_last(), ..s1 }
    } else {
        s1
    };
    add_line(s2, pad_v(st.theme))
}

pub open spec fn end_code_block(st: ConvView) -> ConvView {
    add_line(
        add_line(ConvView { in_code: false, spans: Seq::empty(), ..st }, pad_v(st.theme)),
        blank_v(),
    )
}

pub open spec fn indent_of(depth: nat) -> Seq<char>
    decreases depth,
{
    if depth == 0 {
        Seq::empty()
    } else {
        indent_of((depth - 1) as nat) + "  "@
    }
}

/// The marker of a new item: indented two spaces per level below the
/// outermost, `•` or the next number.
pub open spec fn bullet_of(lists: Seq<ListKind>) -> Seq<char> {
    if lists.len() == 0 {
        Seq::empty()
    } else {
        let ind = indent_of((lists.len() - 1) as nat);
        match lists.last() {
            ListKind::Unordered => ind + "• "@,
            ListKind::Ordered(n) => ind + decimal(n as nat) + ". "@,
        }
    }
}

/// The open lists after an item: the innermost ordered list counts on.
pub open spec fn bump(lists: Seq<ListKind>) -> Seq<ListKind> {
    if lists.len() > 0 {
        match lists.last() {
            ListKind::Ordered(n) => lists.update(
                lists.len() - 1,
                ListKind::Ordered(
                    if n < u64::MAX {
                        (n + 1) as u64
                    } else {
                        n
                    },
                ),
            ),
            ListKind::Unordered => lists,
        }
    } else {
        lists
    }
}

pub open spec fn start_item(st: ConvView) -> ConvView {
    add_span(
        ConvView { lists: bump(st.lists), ..st },
        span_v(bullet_of(st.lists), Style { fg: Some(st.theme.list_bullet), ..plain_spec() }),
    )
}

pub open spec fn end_list(st: ConvView) -> ConvView {
    let s1 = if st.lists.len() > 0 {
        ConvView { lists: st.lists.drop_last(), ..st }
    } else {
        st
    };
    if s1.lists.len() == 0 {
        add_line(s1, blank_v())
    } else {
        s1
    }
}

/// One row of code: it starts a new line unless it is the first piece.
pub open spec fn code_piece(st: ConvView, piece: Seq<char>) -> ConvView {
    add_span(flush_pending(st), span_v("  "@ + piece, code_style(st.theme)))
}

pub open spec fn code_pieces(st: ConvView, pieces: Seq<Seq<char>>) -> ConvView
    decreases pieces.len(),
{
    if pieces.len() == 0 {
        st
    } else {
        code_piece(code_pieces(st, pieces.drop_last()), pieces.last())
    }
}

pub open spec fn text_event(st: ConvView, t: Seq<char>) -> ConvView {
    if st.in_heading {
        ConvView { heading: st.heading + t, ..st }
    } else if st.in_image {
        st
    } else if st.in_code {
        code_pieces(st, split_nl(t))
    } else {
        add_span(st, span_v(t, cur_style(st)))
    }
}

/// The compiler's state after one event.
pub open spec fn step(st: ConvView, e: EventView) -> ConvView {
    match e {
        EventView::StartImage(p) => start_image(st, p),
        EventView::EndImage => ConvView { in_image: false, ..st },
        EventView::Html(h) => apply_directive(st, h),
        EventView::StartHeading(level) => start_heading(st, level),
        EventView::EndHeading => end_heading(st),
        EventView::StartParagraph => st,
        EventView::EndParagraph => add_line(flush_line(st), blank_v()),
        EventView::StartEmphasis => with_style(st, Style { italic: true, ..cur_style(st) }),
        EventView::StartStrong => with_style(st, Style { bold: true, ..cur_style(st) }),
        EventView::StartStrikethrough => with_style(st, Style { crossed_out: true, ..cur_style(st) }),
        EventView::EndEmphasis => pop_style(st),
        EventView::EndStrong => pop_style(st),
        EventView::EndStrikethrough => pop_style(st),
        EventView::Code(c) => add_span(st, span_v(" "@ + c + " "@, inline_code_style(st.theme))),
        EventView::StartCodeBlock => start_code_block(st),
        EventView::EndCodeBlock => end_code_block(st),
        EventView::StartList(n) => ConvView {
            lists: st.lists.push(
                match n {
                    Some(k) => ListKind::Ordered(k),
                    None => ListKind::Unordered,
                },
            ),
            ..st
        },
        EventView::EndList => end_list(st),
        EventView::StartItem => start_item(st),
        EventView::EndItem => flush_line(st),
        EventView::StartBlockQuote => ConvView { in_quote: true, ..st },
        EventView::EndBlockQuote => add_line(ConvView { in_quote: false, ..st }, blank_v()),
        EventView::Rule => flush_slide(st),
        EventView::Text(t) => text_event(st, t),
        EventView::SoftBreak => add_span(st, span_v(" "@, plain_spec())),
        EventView::HardBreak => flush_line(st),
        EventView::Other => st,
    }
}

/// The state after a sequence of events.
pub open spec fn run(st: ConvView, evs: Seq<EventView>) -> ConvView
    decreases evs.len(),
{
    if evs.len() == 0 {
        st
    } else {
        step(run(st, evs.drop_last()), evs.last())
    }
}

/// The state before the first event.
pub open spec fn initial(
    theme: Theme,
    fm: FrontmatterView,
    banners: Seq<Option<Seq<char>>>,
) -> ConvView {
    ConvView {
        theme,
        slides: Seq::empty(),
        lines: Seq::empty(),
        spans: Seq::empty(),
        styles: seq![Style { fg: Some(theme.fg), ..plain_spec() }],
        lists: Seq::empty(),
        in_code: false,
        in_quote: false,
        in_image: false,
        in_heading: false,
        heading: Seq::empty(),
        images: Seq::empty(),
        pending_layout: None,
        pending_transition: None,
        pending_figlet: None,
        pending_width: None,
        default_layout: fm.layout,
        default_transition: fm.transition,
        default_width: fm.image_max_width,
        default_figlet: fm.figlet,
        banners,
        banner_next: 0,
        requests: Seq::empty(),
    }
}

/// The compiler's final state: all events, then the end of input.
pub open spec fn compiled(
    theme: Theme,
    fm: FrontmatterView,
    banners: Seq<Option<Seq<char>>>,
    evs: Seq<EventView>,
) -> ConvView {
    flush_slide(run(initial(theme, fm, banners), evs))
}

/// An image of a slide: where its placeholder rows begin in the slide's
/// text, how many rows they are, and the width cap in percent.
#[derive(Clone, Debug)]
pub struct SlideImage {
    pub path: String,
    pub line_index: usize,
    pub height: u16,
    pub pixel_width: u32,
    pub pixel_height: u32,
    pub max_width_percent: Option<u32>,
}

impl View for SlideImage {
    type V = ImageView;

    open spec fn view(&self) -> ImageView {
        ImageView {
            path: self.path@,
            line_index: self.line_index,
            height: self.height,
            pixel_width: self.pixel_width,
            pixel_height: self.pixel_height,
            max_width_percent: self.max_width_percent,
        }
    }
}

pub open spec fn images_view(v: Seq<SlideImage>) -> Seq<ImageView> {
    v.map_values(|i: SlideImage| i@)
}

/// One slide: its layout, its text (the left column of a two-column slide),
/// the right column, its images and the transition that brings it in.
#[derive(Clone, Debug)]
pub struct Slide {
    pub layout: SlideLayout,
    pub content: Vec<Line>,
    pub right_content: Option<Vec<Line>>,
    pub images: Vec<SlideImage>,
    pub transition: TransitionKind,
}

impl View for Slide {
    type V = SlideView;

    open spec fn view(&self) -> SlideView {
        SlideView {
            layout: self.layout,
            content: lines_view(self.content@),
            right_content: match self.right_content {
                Some(r) => Some(lines_view(r@)),
                None => None,
            },
            images: images_view(self.images@),
            transition: self.transition,
        }
    }
}

pub open spec fn slides_view(v: Seq<Slide>) -> Seq<SlideView> {
    v.map_values(|s: Slide| s@)
}

/// A heading to be set as banner art: its text and the font, `None` for the
/// default one.
#[derive(Clone, Debug)]
pub struct BannerRequest {
    pub text: String,
    pub font: Option<String>,
}

impl View for BannerRequest {
    type V = (Seq<char>, Option<Seq<char>>);

    open spec fn view(&self) -> (Seq<char>, Option<Seq<char>>) {
        (self.text@, self.font.deep_view())
    }
}

pub open spec fn requests_view(v: Seq<BannerRequest>) -> Seq<(Seq<char>, Option<Seq<char>>)> {
    v.map_values(|r: BannerRequest| r@)
}

pub open spec fn banners_view(v: Seq<Option<String>>) -> Seq<Option<Seq<char>>> {
    v.map_values(|b: Option<String>| b.deep_view())
}

} // verus!
