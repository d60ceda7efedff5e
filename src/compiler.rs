//! The slide compiler's executable state machine.
use vstd::prelude::*;
use crate::columns::split_two_column;
use crate::directive::{parse_comment, CommentDirective};
use crate::events::{events_view, markdown_events, markdown_events_of, MdEvent};
use crate::frontmatter::{Frontmatter, SlideLayout, TransitionKind};
use crate::slides::{
    add_line, add_span, art_end, banner_lines, banners_view, blank_lines, blank_v, bullet_of,
    bump, code_pieces, code_style, compiled, cur_style, flush_line, flush_pending, flush_slide,
    heading_style, images_view, indent_of, initial, inline_code_style, pad_v, pop_style,
    render_banner, requests_view, run, slides_view, span_v, step, with_style, BannerRequest,
    ConvView, ListKind, Slide, SlideImage, IMAGE_PLACEHOLDER_HEIGHT,
};
use crate::style::{
    is_blank_line, lines_view, plain_spec, spans_view, Line, LineView, Span, Style,
};
use crate::text::{
    any_visible, chars_of, copy_range, decimal_text, push_chars, push_str, split_lines,
    split_nl, string_of,
};
use crate::theme::Theme;

verus! {

fn push_line(v: &mut Vec<Line>, l: Line)
    ensures
        lines_view(final(v)@) == lines_view(old(v)@).push(l@),
{
    let ghost o = v@;
    v.push(l);
    assert(lines_view(v@) =~= lines_view(o).push(l@));
}

fn push_span(v: &mut Vec<Span>, s: Span)
    ensures
        spans_view(final(v)@) == spans_view(old(v)@).push(s@),
{
    let ghost o = v@;
    v.push(s);
    assert(spans_view(v@) =~= spans_view(o).push(s@));
}

fn push_blanks(v: &mut Vec<Line>, n: u16)
    ensures
        lines_view(final(v)@) == lines_view(old(v)@) + blank_lines(n as nat),
{
    let ghost o = lines_view(v@);
    let mut k: u16 = 0;
    while k < n
        invariant
            k <= n,
            lines_view(v@) == o + blank_lines(k as nat),
        decreases n - k,
    {
        push_line(v, blank_line());
        k = k + 1;
        assert(o + blank_lines(k as nat) =~= (o + blank_lines((k - 1) as nat)).push(blank_v()));
    }
}

fn blank_line() -> (r: Line)
    ensures
        r@ == blank_v(),
{
    let spans: Vec<Span> = Vec::new();
    assert(spans_view(spans@) =~= Seq::empty());
    Line { spans, style: Style::plain() }
}

fn pad_line(t: &Theme) -> (r: Line)
    ensures
        r@ == pad_v(*t),
{
    let spans: Vec<Span> = Vec::new();
    assert(spans_view(spans@) =~= Seq::empty());
    Line { spans, style: Style::bg(t.surface) }
}

fn text_span(t: &str, style: Style) -> (r: Span)
    ensures
        r@ == span_v(t@, style),
{
    Span { content: t.to_owned(), style }
}

fn chars_span(t: &[char], style: Style) -> (r: Span)
    ensures
        r@ == span_v(t@, style),
{
    Span { content: string_of(t), style }
}

fn clone_font(f: &Option<Option<String>>) -> (r: Option<Option<String>>)
    ensures
        r.deep_view() == f.deep_view(),
{
    match f {
        Some(Some(s)) => Some(Some(s.clone())),
        Some(None) => Some(None),
        None => None,
    }
}

fn heading_style_of(t: &Theme, level: u8) -> (r: Style)
    ensures
        r == heading_style(*t, level),
{
    let c = if level == 1 {
        t.h1
    } else if level == 2 {
        t.h2
    } else if level == 3 {
        t.h3
    } else {
        t.h4
    };
    Style { fg: Some(c), bold: true, ..Style::plain() }
}

/// Drops trailing lines without spans or background.
fn trim_blank_tail(v: &mut Vec<Line>)
    ensures
        lines_view(final(v)@) == crate::slides::trim_blank(lines_view(old(v)@)),
{
    while v.len() > 0 && v[v.len() - 1].spans.len() == 0 && v[v.len() - 1].style.bg.is_none()
        invariant
            crate::slides::trim_blank(lines_view(v@)) == crate::slides::trim_blank(
                lines_view(old(v)@),
            ),
        decreases v@.len(),
    {
        let ghost before = v@;
        v.pop();
        proof {
            assert(lines_view(v@) =~= lines_view(before).drop_last());
        }
    }
    proof {
        let lv = lines_view(v@);
        if lv.len() > 0 {
            assert(lv.last() == v@[v@.len() - 1]@);
        }
    }
}

/// The lines of banner art, trailing rows without visible characters left out.
fn banner_rows(art: &str, style: Style) -> (r: Vec<Line>)
    ensures
        lines_view(r@) == banner_lines(art@, style),
{
    let c = chars_of(art);
    let rows = split_lines(c.as_slice());
    let ghost rv = split_nl(art@);
    assert(rows@.map_values(|v: Vec<char>| v@) == rv);
    let mut end = rows.len();
    assert(rv.subrange(0, end as int) =~= rv);
    while end > 0 && !any_visible(rows[end - 1].as_slice())
        invariant
            end <= rows@.len(),
            rows@.map_values(|v: Vec<char>| v@) == rv,
            art_end(rv) == art_end(rv.subrange(0, end as int)),
        decreases end,
    {
        assert(rv.subrange(0, end as int).drop_last() =~= rv.subrange(0, end - 1));
        assert(rv[end - 1] == rows@[end - 1]@);
        end = end - 1;
    }
    proof {
        if end > 0 {
            assert(rv[end - 1] == rows@[end - 1]@);
            assert(rv.subrange(0, end as int).last() == rv[end - 1]);
        }
    }
    let mut out: Vec<Line> = Vec::new();
    let mut i: usize = 0;
    while i < end
        invariant
            i <= end <= rows@.len(),
            rows@.map_values(|v: Vec<char>| v@) == rv,
            end == art_end(rv),
            lines_view(out@) == rv.subrange(0, i as int).map_values(
                |r: Seq<char>| crate::slides::banner_row(r, style),
            ),
        decreases end - i,
    {
        let mut spans: Vec<Span> = Vec::new();
        push_span(&mut spans, chars_span(rows[i].as_slice(), style));
        assert(spans_view(spans@) =~= seq![span_v(rv[i as int], style)]);
        let line = Line { spans, style: Style::plain() };
        assert(line@ == crate::slides::banner_row(rv[i as int], style));
        push_line(&mut out, line);
        i = i + 1;
        assert(rv.subrange(0, i as int).map_values(
            |r: Seq<char>| crate::slides::banner_row(r, style),
        ) =~= rv.subrange(0, i - 1).map_values(
            |r: Seq<char>| crate::slides::banner_row(r, style),
        ).push(crate::slides::banner_row(rv[i - 1], style)));
    }
    out
}

fn append_lines(v: &mut Vec<Line>, w: Vec<Line>)
    ensures
        lines_view(final(v)@) == lines_view(old(v)@) + lines_view(w@),
{
    let ghost o = v@;
    let ghost ow = w@;
    let mut w = w;
    v.append(&mut w);
    assert(lines_view(v@) =~= lines_view(o) + lines_view(ow));
}

/// The marker of a new item in the innermost open list.
fn bullet_text(lists: &Vec<ListKind>) -> (r: Vec<char>)
    ensures
        r@ == bullet_of(lists@),
{
    let mut r: Vec<char> = Vec::new();
    if lists.len() == 0 {
        return r;
    }
    let depth = lists.len() - 1;
    let mut j: usize = 0;
    while j < depth
        invariant
            j <= depth,
            r@ == indent_of(j as nat),
        decreases depth - j,
    {
        push_str(&mut r, "  ");
        j = j + 1;
    }
    match lists[depth] {
        ListKind::Unordered => {
            push_str(&mut r, "• ");
        },
        ListKind::Ordered(n) => {
            let d = decimal_text(n);
            let dc = chars_of(d.as_str());
            push_chars(&mut r, dc.as_slice());
            push_str(&mut r, ". ");
        },
    }
    r
}

fn bump_list(lists: &mut Vec<ListKind>)
    ensures
        final(lists)@ == bump(old(lists)@),
{
    let n = lists.len();
    if n > 0 {
        match lists[n - 1] {
            ListKind::Ordered(k) => {
                let next = if k < u64::MAX {
                    k + 1
                } else {
                    k
                };
                lists.set(n - 1, ListKind::Ordered(next));
            },
            ListKind::Unordered => {},
        }
    }
}

/// The compiler's state while it reads one document.
struct MdConverter {
    theme: Theme,
    slides: Vec<Slide>,
    lines: Vec<Line>,
    current_spans: Vec<Span>,
    style_stack: Vec<Style>,
    list_stack: Vec<ListKind>,
    in_code_block: bool,
    in_blockquote: bool,
    in_image: bool,
    in_heading: bool,
    heading_text_buf: Vec<char>,
    images: Vec<SlideImage>,
    pending_layout: Option<SlideLayout>,
    pending_transition: Option<TransitionKind>,
    pending_figlet: Option<Option<String>>,
    pending_image_max_width: Option<u32>,
    default_layout: Option<SlideLayout>,
    default_transition: Option<TransitionKind>,
    default_image_max_width: Option<u32>,
    default_figlet: Option<Option<String>>,
    banners: Vec<Option<String>>,
    banner_next: usize,
    requests: Vec<BannerRequest>,
}

impl View for MdConverter {
    type V = ConvView;

    closed spec fn view(&self) -> ConvView {
        ConvView {
            theme: self.theme,
            slides: slides_view(self.slides@),
            lines: lines_view(self.lines@),
            spans: spans_view(self.current_spans@),
            styles: self.style_stack@,
            lists: self.list_stack@,
            in_code: self.in_code_block,
            in_quote: self.in_blockquote,
            in_image: self.in_image,
            in_heading: self.in_heading,
            heading: self.heading_text_buf@,
            images: images_view(self.images@),
            pending_layout: self.pending_layout,
            pending_transition: self.pending_transition,
            pending_figlet: self.pending_figlet.deep_view(),
            pending_width: self.pending_image_max_width,
            default_layout: self.default_layout,
            default_transition: self.default_transition,
            default_width: self.default_image_max_width,
            default_figlet: self.default_figlet.deep_view(),
            banners: banners_view(self.banners@),
            banner_next: self.banner_next as int,
            requests: requests_view(self.requests@),
        }
    }
}

impl MdConverter {
    fn new(theme: Theme, frontmatter: &Frontmatter, banners: Vec<Option<String>>) -> (r: Self)
        ensures
            r@ == initial(theme, frontmatter@, banners_view(banners@)),
    {
        let mut style_stack: Vec<Style> = Vec::new();
        style_stack.push(Style::fg(theme.fg));
        let r = MdConverter {
            theme,
            slides: Vec::new(),
            lines: Vec::new(),
            current_spans: Vec::new(),
            style_stack,
            list_stack: Vec::new(),
            in_code_block: false,
            in_blockquote: false,
            in_image: false,
            in_heading: false,
            heading_text_buf: Vec::new(),
            images: Vec::new(),
            pending_layout: None,
            pending_transition: None,
            pending_figlet: None,
            pending_image_max_width: None,
            default_layout: frontmatter.layout,
            default_transition: frontmatter.transition,
            default_image_max_width: frontmatter.image_max_width,
            default_figlet: clone_font(&frontmatter.figlet),
            banners,
            banner_next: 0,
            requests: Vec::new(),
        };
        assert(r@.slides =~= Seq::empty());
        assert(r@.lines =~= Seq::empty());
        assert(r@.spans =~= Seq::empty());
        assert(r@.styles =~= seq![Style { fg: Some(theme.fg), ..plain_spec() }]);
        assert(r@.lists =~= Seq::empty());
        assert(r@.heading =~= Seq::empty());
        assert(r@.images =~= Seq::empty());
        assert(r@.requests =~= Seq::empty());
        r
    }

    fn current_style(&self) -> (r: Style)
        ensures
            r == cur_style(self@),
    {
        let n = self.style_stack.len();
        if n > 0 {
            self.style_stack[n - 1]
        } else {
            Style::plain()
        }
    }

    fn push_style(&mut self, s: Style)
        ensures
            final(self)@ == with_style(old(self)@, s),
    {
        self.style_stack.push(s);
    }

    fn pop_style(&mut self)
        ensures
            final(self)@ == pop_style(old(self)@),
    {
        if self.style_stack.len() > 1 {
            self.style_stack.pop();
        }
    }

    fn add_span(&mut self, s: Span)
        ensures
            final(self)@ == add_span(old(self)@, s@),
    {
        push_span(&mut self.current_spans, s);
    }

    fn add_line(&mut self, l: Line)
        ensures
            final(self)@ == add_line(old(self)@, l@),
    {
        push_line(&mut self.lines, l);
    }

    fn flush_line(&mut self)
        ensures
            final(self)@ == flush_line(old(self)@),
    {
        let ghost sv = spans_view(self.current_spans@);
        let mut spans: Vec<Span> = Vec::new();
        std::mem::swap(&mut spans, &mut self.current_spans);
        assert(spans_view(self.current_spans@) =~= Seq::empty());
        let line = if self.in_blockquote {
            let mut bq: Vec<Span> = Vec::new();
            push_span(&mut bq, text_span("│ ", Style::fg(self.theme.block_quote_prefix)));
            let ghost first = spans_view(bq@);
            bq.append(&mut spans);
            assert(spans_view(bq@) =~= first + sv);
            Line { spans: bq, style: Style::plain() }
        } else if self.in_code_block {
            Line { spans, style: Style::bg(self.theme.surface) }
        } else {
            Line { spans, style: Style::plain() }
        };
        push_line(&mut self.lines, line);
    }

    fn flush_pending(&mut self)
        ensures
            final(self)@ == flush_pending(old(self)@),
    {
        if self.current_spans.len() > 0 {
            self.flush_line();
        }
    }

    fn flush_slide(&mut self)
        ensures
            final(self)@ == flush_slide(old(self)@),
    {
        self.flush_pending();
        let mut lines: Vec<Line> = Vec::new();
        std::mem::swap(&mut lines, &mut self.lines);
        assert(lines_view(self.lines@) =~= Seq::empty());
        trim_blank_tail(&mut lines);
        let mut images: Vec<SlideImage> = Vec::new();
        std::mem::swap(&mut images, &mut self.images);
        assert(images_view(self.images@) =~= Seq::empty());
        self.pending_figlet = None;
        let transition = match self.pending_transition {
            Some(t) => t,
            None => match self.default_transition {
                Some(t) => t,
                None => TransitionKind::SlideIn,
            },
        };
        self.pending_transition = None;
        if lines.len() > 0 {
            let layout = match self.pending_layout {
                Some(l) => l,
                None => match self.default_layout {
                    Some(l) => l,
                    None => SlideLayout::Default,
                },
            };
            self.pending_layout = None;
            let mut slide = match layout {
                SlideLayout::TwoColumn => split_two_column(lines),
                _ => Slide {
                    layout,
                    content: lines,
                    right_content: None,
                    images: Vec::new(),
                    transition: TransitionKind::Instant,
                },
            };
            slide.images = images;
            slide.transition = transition;
            let ghost o = self.slides@;
            self.slides.push(slide);
            assert(slides_view(self.slides@) =~= slides_view(o).push(slide@));
        }
    }

    fn start_image(&mut self, path: &String)
        ensures
            final(self)@ == crate::slides::start_image(old(self)@, path@),
    {
        self.flush_pending();
        self.in_image = true;
        let line_index = self.lines.len();
        let max_width_percent = match self.pending_image_max_width {
            Some(w) => Some(w),
            None => self.default_image_max_width,
        };
        self.pending_image_max_width = None;
        let img = SlideImage {
            path: path.clone(),
            line_index,
            height: IMAGE_PLACEHOLDER_HEIGHT,
            pixel_width: 0,
            pixel_height: 0,
            max_width_percent,
        };
        let ghost o = self.images@;
        self.images.push(img);
        assert(images_view(self.images@) =~= images_view(o).push(img@));
        push_blanks(&mut self.lines, IMAGE_PLACEHOLDER_HEIGHT);
    }

    fn apply_html(&mut self, html: &String)
        ensures
            final(self)@ == crate::slides::apply_directive(old(self)@, html@),
    {
        match parse_comment(html.as_str()) {
            Some(CommentDirective::Layout(l)) => {
                self.pending_layout = Some(l);
            },
            Some(CommentDirective::Transition(t)) => {
                self.pending_transition = Some(t);
            },
            Some(CommentDirective::Figlet(f)) => {
                self.pending_figlet = Some(f);
            },
            Some(CommentDirective::ImageMaxWidth(p)) => {
                self.pending_image_max_width = Some(p);
            },
            None => {},
        }
    }

    fn start_heading(&mut self, level: u8)
        ensures
            final(self)@ == crate::slides::start_heading(old(self)@, level),
    {
        let style = heading_style_of(&self.theme, level);
        self.push_style(style);
        if self.pending_figlet.is_some() || self.default_figlet.is_some() {
            if self.pending_figlet.is_none() {
                self.pending_figlet = clone_font(&self.default_figlet);
            }
            self.in_heading = true;
            self.heading_text_buf = Vec::new();
            assert(self@.heading =~= Seq::empty());
        } else {
            let centered = match self.pending_layout {
                Some(l) => match l {
                    SlideLayout::Center => true,
                    _ => false,
                },
                None => match self.default_layout {
                    Some(SlideLayout::Center) => true,
                    _ => false,
                },
            };
            if !centered {
                let s = self.current_style();
                self.add_span(text_span("# ", s));
            }
        }
    }

    fn render_banner(&mut self, text: &[char], style: Style)
        ensures
            final(self)@ == render_banner(old(self)@, text@, style),
    {
        let style2 = Style { underlined: false, ..style };
        let font = match &self.pending_figlet {
            Some(Some(f)) => Some(f.clone()),
            _ => None,
        };
        let req = BannerRequest { text: string_of(text), font };
        let ghost o = self.requests@;
        self.requests.push(req);
        assert(requests_view(self.requests@) =~= requests_view(o).push(req@));
        let n = self.banner_next;
        let art: Option<Vec<Line>> = if n < self.banners.len() {
            self.banner_next = n + 1;
            match &self.banners[n] {
                Some(a) => {
                    assert(banners_view(self.banners@)[n as int] == Some(a@));
                    Some(banner_rows(a.as_str(), style2))
                },
                None => {
                    assert(banners_view(self.banners@)[n as int] is None);
                    None
                },
            }
        } else {
            None
        };
        match art {
            Some(rows) => {
                append_lines(&mut self.lines, rows);
            },
            None => {
                self.add_span(chars_span(text, style2));
                self.flush_line();
            },
        }
    }

    fn end_heading(&mut self)
        ensures
            final(self)@ == crate::slides::end_heading(old(self)@),
    {
        if self.in_heading {
            self.in_heading = false;
            let style = self.current_style();
            self.current_spans = Vec::new();
            assert(self@.spans =~= Seq::empty());
            let text = copy_range(
                self.heading_text_buf.as_slice(),
                0,
                self.heading_text_buf.len(),
            );
            assert(text@ =~= self.heading_text_buf@);
            self.render_banner(text.as_slice(), style);
            self.add_line(blank_line());
        } else {
            self.flush_line();
            self.add_line(blank_line());
        }
        self.pop_style();
    }

    fn start_code_block(&mut self)
        ensures
            final(self)@ == crate::slides::start_code_block(old(self)@),
    {
        self.in_code_block = true;
        self.flush_line();
        let n = self.lines.len();
        if n > 0 && self.lines[n - 1].spans.len() == 0 {
            let prev_has_bg = n >= 2 && self.lines[n - 2].style.bg.is_some();
            if !prev_has_bg {
                let ghost before = self.lines@;
                self.lines.pop();
                assert(lines_view(self.lines@) =~= lines_view(before).drop_last());
            }
        }
        let pad = pad_line(&self.theme);
        self.add_line(pad);
    }

    fn end_code_block(&mut self)
        ensures
            final(self)@ == crate::slides::end_code_block(old(self)@),
    {
        self.in_code_block = false;
        self.current_spans = Vec::new();
        assert(self@.spans =~= Seq::empty());
        let pad = pad_line(&self.theme);
        self.add_line(pad);
        self.add_line(blank_line());
    }

    fn start_item(&mut self)
        ensures
            final(self)@ == crate::slides::start_item(old(self)@),
    {
        let bullet = bullet_text(&self.list_stack);
        bump_list(&mut self.list_stack);
        let s = Style::fg(self.theme.list_bullet);
        self.add_span(chars_span(bullet.as_slice(), s));
    }

    fn end_list(&mut self)
        ensures
            final(self)@ == crate::slides::end_list(old(self)@),
    {
        if self.list_stack.len() > 0 {
            self.list_stack.pop();
        }
        if self.list_stack.len() == 0 {
            self.add_line(blank_line());
        }
    }

    fn code_text(&mut self, t: &String)
        ensures
            final(self)@ == code_pieces(old(self)@, split_nl(t@)),
    {
        let c = chars_of(t.as_str());
        let pieces = split_lines(c.as_slice());
        let ghost pv = split_nl(t@);
        let ghost s0 = self@;
        let style = Style { fg: Some(self.theme.fg), bg: Some(self.theme.surface), ..Style::plain() };
        assert(style == code_style(s0.theme));
        assert(pv.subrange(0, 0) =~= Seq::<Seq<char>>::empty());
        let mut i: usize = 0;
        while i < pieces.len()
            invariant
                i <= pieces@.len(),
                pieces@.map_values(|v: Vec<char>| v@) == pv,
                self@ == code_pieces(s0, pv.subrange(0, i as int)),
                self.theme == s0.theme,
                style == code_style(s0.theme),
            decreases pieces@.len() - i,
        {
            self.flush_pending();
            let mut row: Vec<char> = Vec::new();
            push_str(&mut row, "  ");
            push_chars(&mut row, pieces[i].as_slice());
            assert(pv[i as int] == pieces@[i as int]@);
            self.add_span(chars_span(row.as_slice(), style));
            i = i + 1;
            assert(pv.subrange(0, i as int).drop_last() =~= pv.subrange(0, i - 1));
        }
        assert(pv.subrange(0, i as int) =~= pv);
    }

    fn text(&mut self, t: &String)
        ensures
            final(self)@ == crate::slides::text_event(old(self)@, t@),
    {
        if self.in_heading {
            let c = chars_of(t.as_str());
            push_chars(&mut self.heading_text_buf, c.as_slice());
        } else if self.in_image {
        } else if self.in_code_block {
            self.code_text(t);
        } else {
            let s = self.current_style();
            self.add_span(Span { content: t.clone(), style: s });
        }
    }

    fn process(&mut self, e: &MdEvent)
        ensures
            final(self)@ == step(old(self)@, e@),
    {
        match e {
            MdEvent::StartImage(p) => self.start_image(p),
            MdEvent::EndImage => {
                self.in_image = false;
            },
            MdEvent::Html(h) => self.apply_html(h),
            MdEvent::StartHeading(level) => self.start_heading(*level),
            MdEvent::EndHeading => self.end_heading(),
            MdEvent::StartParagraph => {},
            MdEvent::EndParagraph => {
                self.flush_line();
                self.add_line(blank_line());
            },
            MdEvent::StartEmphasis => {
                let s = self.current_style();
                self.push_style(Style { italic: true, ..s });
            },
            MdEvent::StartStrong => {
                let s = self.current_style();
                self.push_style(Style { bold: true, ..s });
            },
            MdEvent::StartStrikethrough => {
                let s = self.current_style();
                self.push_style(Style { crossed_out: true, ..s });
            },
            MdEvent::EndEmphasis => self.pop_style(),
            MdEvent::EndStrong => self.pop_style(),
            MdEvent::EndStrikethrough => self.pop_style(),
            MdEvent::Code(c) => {
                let mut v: Vec<char> = Vec::new();
                push_str(&mut v, " ");
                let cc = chars_of(c.as_str());
                push_chars(&mut v, cc.as_slice());
                push_str(&mut v, " ");
                let s = Style {
                    fg: Some(self.theme.inline_code_fg),
                    bg: Some(self.theme.surface),
                    ..Style::plain()
                };
                self.add_span(chars_span(v.as_slice(), s));
            },
            MdEvent::StartCodeBlock => self.start_code_block(),
            MdEvent::EndCodeBlock => self.end_code_block(),
            MdEvent::StartList(n) => {
                let kind = match n {
                    Some(k) => ListKind::Ordered(*k),
                    None => ListKind::Unordered,
                };
                self.list_stack.push(kind);
            },
            MdEvent::EndList => self.end_list(),
            MdEvent::StartItem => self.start_item(),
            MdEvent::EndItem => self.flush_line(),
            MdEvent::StartBlockQuote => {
                self.in_blockquote = true;
            },
            MdEvent::EndBlockQuote => {
                self.in_blockquote = false;
                self.add_line(blank_line());
            },
            MdEvent::Rule => self.flush_slide(),
            MdEvent::Text(t) => self.text(t),
            MdEvent::SoftBreak => self.add_span(text_span(" ", Style::plain())),
            MdEvent::HardBreak => self.flush_line(),
            MdEvent::Other => {},
        }
    }
}

/// Compiles a sequence of markdown events into slides. `banners` holds, in
/// order, the banner art for each heading set as a banner (`None` where the
/// banner tool failed). Returns the slides and the banner requests met.
pub fn compile_events(
    events: &Vec<MdEvent>,
    theme: Theme,
    frontmatter: &Frontmatter,
    banners: Vec<Option<String>>,
) -> (r: (Vec<Slide>, Vec<BannerRequest>))
    ensures
        slides_view(r.0@) == compiled(
            theme,
            frontmatter@,
            banners_view(banners@),
            events_view(events@),
        ).slides,
        requests_view(r.1@) == compiled(
            theme,
            frontmatter@,
            banners_view(banners@),
            events_view(events@),
        ).requests,
{
    let ghost st0 = initial(theme, frontmatter@, banners_view(banners@));
    let ghost ev = events_view(events@);
    let mut c = MdConverter::new(theme, frontmatter, banners);
    let mut i: usize = 0;
    assert(ev.subrange(0, 0) =~= Seq::<crate::events::EventView>::empty());
    while i < events.len()
        invariant
            i <= events@.len(),
            ev == events_view(events@),
            c@ == run(st0, ev.subrange(0, i as int)),
        decreases events@.len() - i,
    {
        c.process(&events[i]);
        i = i + 1;
        assert(ev.subrange(0, i as int).drop_last() =~= ev.subrange(0, i - 1));
        assert(ev[i - 1] == events@[i - 1]@);
    }
    assert(ev.subrange(0, i as int) =~= ev);
    c.flush_slide();
    (c.slides, c.requests)
}

/// Parses markdown into slides separated by horizontal rules, using the
/// frontmatter's defaults and the given banner art (see `compile_events`).
pub fn parse_slides(
    input: &str,
    theme: &Theme,
    frontmatter: &Frontmatter,
    banners: Vec<Option<String>>,
) -> (r: Vec<Slide>)
    ensures
        slides_view(r@) == compiled(
            *theme,
            frontmatter@,
            banners_view(banners@),
            markdown_events_of(input@),
        ).slides,
{
    let events = markdown_events(input);
    compile_events(&events, *theme, frontmatter, banners).0
}

/// The headings of a document that are to be set as banners, in order, with
/// their fonts: what `parse_slides` expects banner art for.
pub fn banner_requests(input: &str, theme: &Theme, frontmatter: &Frontmatter) -> (r: Vec<
    BannerRequest,
>)
    ensures
        requests_view(r@) == compiled(
            *theme,
            frontmatter@,
            Seq::empty(),
            markdown_events_of(input@),
        ).requests,
{
    let events = markdown_events(input);
    let none: Vec<Option<String>> = Vec::new();
    assert(banners_view(none@) =~= Seq::empty());
    compile_events(&events, *theme, frontmatter, none).1
}

} // verus!
