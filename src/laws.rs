//! Properties of the slide compiler over whole event sequences.
use vstd::prelude::*;
use crate::events::EventView;
use crate::frontmatter::{FrontmatterView, SlideLayout};
use crate::slides::{
    blank_v, bullet_of, code_piece, code_pieces, compiled, flush_pending, flush_slide, indent_of,
    initial, pad_v, resolve, run, span_v, step, trim_blank, ConvView, ListKind, SlideView,
};
use crate::style::{plain_spec, Style};
use crate::style::{is_blank_line, LineView};
use crate::text::decimal;
use crate::theme::Theme;

verus! {

/// The content collected since the last slide boundary has a line that is
/// not blank.
pub open spec fn has_content(st: ConvView) -> bool {
    trim_blank(flush_pending(st).lines).len() > 0
}

/// Number of horizontal rules in `evs`.
pub open spec fn rule_count(evs: Seq<EventView>) -> nat
    decreases evs.len(),
{
    if evs.len() == 0 {
        0
    } else {
        rule_count(evs.drop_last()) + if evs.last() is Rule {
            1nat
        } else {
            0nat
        }
    }
}

proof fn lemma_code_pieces_slides(st: ConvView, pieces: Seq<Seq<char>>)
    ensures
        code_pieces(st, pieces).slides == st.slides,
        code_pieces(st, pieces).theme == st.theme,
    decreases pieces.len(),
{
    if pieces.len() > 0 {
        lemma_code_pieces_slides(st, pieces.drop_last());
    }
}

/// Only a rule touches the finished slides.
proof fn lemma_step_slides(st: ConvView, e: EventView)
    ensures
        !(e is Rule) ==> step(st, e).slides == st.slides,
        step(st, e).theme == st.theme,
{
    if let EventView::Text(t) = e {
        if !st.in_heading && !st.in_image && st.in_code {
            lemma_code_pieces_slides(st, crate::text::split_nl(t));
        }
    }
}

proof fn lemma_flush_slide_count(st: ConvView)
    ensures
        flush_slide(st).slides.len() == st.slides.len() + if has_content(st) {
            1int
        } else {
            0int
        },
        flush_slide(st).slides.subrange(0, st.slides.len() as int) == st.slides,
{
    assert(flush_pending(st).slides == st.slides);
    let s1 = flush_pending(st);
    if has_content(st) {
        assert(flush_slide(st).slides == s1.slides.push(flush_slide(st).slides.last()));
    }
    assert(flush_slide(st).slides.subrange(0, st.slides.len() as int) =~= st.slides);
}

proof fn lemma_run_count(st: ConvView, evs: Seq<EventView>)
    requires
        st.slides.len() == 0,
        forall|k: int|
            0 <= k < evs.len() && (#[trigger] evs[k]) is Rule ==> has_content(
                run(st, evs.subrange(0, k)),
            ),
    ensures
        run(st, evs).slides.len() == rule_count(evs),
    decreases evs.len(),
{
    if evs.len() > 0 {
        let pre = evs.drop_last();
        assert forall|k: int| 0 <= k < pre.len() && (#[trigger] pre[k]) is Rule implies has_content(
            run(st, pre.subrange(0, k)),
        ) by {
            assert(pre.subrange(0, k) =~= evs.subrange(0, k));
            assert(evs[k] == pre[k]);
        }
        lemma_run_count(st, pre);
        lemma_step_slides(run(st, pre), evs.last());
        if evs.last() is Rule {
            assert(pre =~= evs.subrange(0, evs.len() - 1));
            lemma_flush_slide_count(run(st, pre));
        }
    }
}

/// Slides come out one per segment: when the content before each
/// horizontal rule, and the content after the last one, each hold a line
/// that is not blank, there are exactly one more slides than rules.
pub proof fn lemma_slide_count(
    theme: Theme,
    fm: FrontmatterView,
    banners: Seq<Option<Seq<char>>>,
    evs: Seq<EventView>,
)
    requires
        forall|k: int|
            0 <= k < evs.len() && (#[trigger] evs[k]) is Rule ==> has_content(
                run(initial(theme, fm, banners), evs.subrange(0, k)),
            ),
        has_content(run(initial(theme, fm, banners), evs)),
    ensures
        compiled(theme, fm, banners, evs).slides.len() == rule_count(evs) + 1,
{
    lemma_run_count(initial(theme, fm, banners), evs);
    lemma_flush_slide_count(run(initial(theme, fm, banners), evs));
}

proof fn lemma_run_prefix(st: ConvView, evs: Seq<EventView>, k: int)
    requires
        0 <= k <= evs.len(),
    ensures
        run(st, evs).slides.len() >= run(st, evs.subrange(0, k)).slides.len(),
        run(st, evs).slides.subrange(0, run(st, evs.subrange(0, k)).slides.len() as int) == run(
            st,
            evs.subrange(0, k),
        ).slides,
    decreases evs.len(),
{
    if k == evs.len() {
        assert(evs.subrange(0, k) =~= evs);
        assert(run(st, evs).slides.subrange(0, run(st, evs).slides.len() as int) =~= run(
            st,
            evs,
        ).slides);
    } else {
        let pre = evs.drop_last();
        assert(pre.subrange(0, k) =~= evs.subrange(0, k));
        lemma_run_prefix(st, pre, k);
        let a = run(st, pre);
        lemma_step_slides(a, evs.last());
        if evs.last() is Rule {
            lemma_flush_slide_count(a);
        }
        let b = run(st, evs);
        let m = run(st, evs.subrange(0, k)).slides.len() as int;
        assert(b.slides.subrange(0, m) =~= a.slides.subrange(0, m)) by {
            assert(b.slides.subrange(0, a.slides.len() as int) == a.slides);
        }
    }
}

/// Slides keep document order: the slides finished after any prefix of
/// the events come first, unchanged, in the final result.
pub proof fn lemma_slides_in_order(
    theme: Theme,
    fm: FrontmatterView,
    banners: Seq<Option<Seq<char>>>,
    evs: Seq<EventView>,
    k: int,
)
    requires
        0 <= k <= evs.len(),
    ensures
        ({
            let early = run(initial(theme, fm, banners), evs.subrange(0, k)).slides;
            let all = compiled(theme, fm, banners, evs).slides;
            early.len() <= all.len() && all.subrange(0, early.len() as int) == early
        }),
{
    let st = initial(theme, fm, banners);
    lemma_run_prefix(st, evs, k);
    let r = run(st, evs);
    lemma_flush_slide_count(r);
    let m = run(st, evs.subrange(0, k)).slides.len() as int;
    assert(flush_slide(r).slides.subrange(0, m) =~= r.slides.subrange(0, m));
}

proof fn lemma_trim_blank_last(lines: Seq<LineView>)
    ensures
        trim_blank(lines).len() > 0 ==> !is_blank_line(trim_blank(lines).last()),
    decreases lines.len(),
{
    if lines.len() > 0 && is_blank_line(lines.last()) {
        lemma_trim_blank_last(lines.drop_last());
    }
}

/// A single-column slide that is not blank: it has a line, and its last
/// line is not blank.
pub open spec fn slide_not_blank(s: SlideView) -> bool {
    s.layout != SlideLayout::TwoColumn ==> s.content.len() > 0 && !is_blank_line(s.content.last())
}

proof fn lemma_flush_slide_not_blank(st: ConvView)
    requires
        forall|i: int| 0 <= i < st.slides.len() ==> slide_not_blank(#[trigger] st.slides[i]),
    ensures
        forall|i: int|
            0 <= i < flush_slide(st).slides.len() ==> slide_not_blank(
                #[trigger] flush_slide(st).slides[i],
            ),
{
    let s1 = flush_pending(st);
    assert(s1.slides == st.slides);
    lemma_trim_blank_last(s1.lines);
    lemma_flush_slide_count(st);
    assert forall|i: int| 0 <= i < flush_slide(st).slides.len() implies slide_not_blank(
        #[trigger] flush_slide(st).slides[i],
    ) by {
        if i < st.slides.len() {
            assert(flush_slide(st).slides[i] == flush_slide(st).slides.subrange(
                0,
                st.slides.len() as int,
            )[i]);
        }
    }
}

proof fn lemma_run_not_blank(st: ConvView, evs: Seq<EventView>)
    requires
        forall|i: int| 0 <= i < st.slides.len() ==> slide_not_blank(#[trigger] st.slides[i]),
    ensures
        forall|i: int|
            0 <= i < run(st, evs).slides.len() ==> slide_not_blank(#[trigger] run(st, evs).slides[i]),
    decreases evs.len(),
{
    if evs.len() > 0 {
        lemma_run_not_blank(st, evs.drop_last());
        let a = run(st, evs.drop_last());
        lemma_step_slides(a, evs.last());
        if evs.last() is Rule {
            lemma_flush_slide_not_blank(a);
        }
    }
}

/// No slide is made of blank content: every single-column slide has a line,
/// and its last line is not blank (trailing blank lines were trimmed and an
/// all-blank segment gave no slide).
pub proof fn lemma_no_blank_slides(
    theme: Theme,
    fm: FrontmatterView,
    banners: Seq<Option<Seq<char>>>,
    evs: Seq<EventView>,
)
    ensures
        forall|i: int|
            0 <= i < compiled(theme, fm, banners, evs).slides.len() ==> slide_not_blank(
                #[trigger] compiled(theme, fm, banners, evs).slides[i],
            ),
{
    let st = initial(theme, fm, banners);
    lemma_run_not_blank(st, evs);
    lemma_flush_slide_not_blank(run(st, evs));
}

/// An item of an ordered list is numbered with the list's counter, which
/// then counts on; the counters of the enclosing lists are untouched. The
/// marker is indented two spaces per enclosing list and drawn in the
/// theme's bullet color.
pub proof fn lemma_item_number(st: ConvView, n: u64)
    requires
        st.lists.len() > 0,
        st.lists.last() == ListKind::Ordered(n),
        n < u64::MAX,
    ensures
        step(st, EventView::StartItem).spans == st.spans.push(
            span_v(
                indent_of((st.lists.len() - 1) as nat) + decimal(n as nat) + ". "@,
                Style { fg: Some(st.theme.list_bullet), ..plain_spec() },
            ),
        ),
        step(st, EventView::StartItem).lists == st.lists.update(
            st.lists.len() - 1,
            ListKind::Ordered((n + 1) as u64),
        ),
        step(st, EventView::StartItem).lists.subrange(0, st.lists.len() - 1) == st.lists.subrange(
            0,
            st.lists.len() - 1,
        ),
{
    let after = step(st, EventView::StartItem).lists;
    assert(after.subrange(0, st.lists.len() - 1) =~= st.lists.subrange(0, st.lists.len() - 1));
}

/// A new list starts counting at its declared start value.
pub proof fn lemma_list_start(st: ConvView, start: u64)
    ensures
        step(st, EventView::StartList(Some(start))).lists == st.lists.push(
            ListKind::Ordered(start),
        ),
{
}

/// Whether the events between a list's start and end open and close lists
/// in nested pairs (never closing more than they opened).
pub open spec fn lists_nested(evs: Seq<EventView>) -> bool {
    list_depth(evs) == 0 && forall|k: int| 0 <= k <= evs.len() ==> list_depth(
        #[trigger] evs.subrange(0, k),
    ) >= 0
}

/// Lists opened minus lists closed.
pub open spec fn list_depth(evs: Seq<EventView>) -> int
    decreases evs.len(),
{
    if evs.len() == 0 {
        0
    } else {
        list_depth(evs.drop_last()) + if evs.last() is StartList {
            1int
        } else if evs.last() is EndList {
            -1int
        } else {
            0int
        }
    }
}

proof fn lemma_code_pieces_lists(st: ConvView, pieces: Seq<Seq<char>>)
    ensures
        code_pieces(st, pieces).lists == st.lists,
    decreases pieces.len(),
{
    if pieces.len() > 0 {
        lemma_code_pieces_lists(st, pieces.drop_last());
    }
}

proof fn lemma_step_lists(st: ConvView, e: EventView)
    ensures
        !(e is StartList || e is EndList || e is StartItem) ==> step(st, e).lists == st.lists,
{
    if let EventView::Text(t) = e {
        if !st.in_heading && !st.in_image && st.in_code {
            lemma_code_pieces_lists(st, crate::text::split_nl(t));
        }
    }
}

proof fn lemma_inner_lists(st: ConvView, outer: Seq<ListKind>, evs: Seq<EventView>)
    requires
        st.lists.len() == outer.len() + 1,
        st.lists.subrange(0, outer.len() as int) == outer,
        forall|k: int| 0 <= k <= evs.len() ==> list_depth(#[trigger] evs.subrange(0, k)) >= 0,
    ensures
        run(st, evs).lists.len() == outer.len() + 1 + list_depth(evs),
        run(st, evs).lists.subrange(0, outer.len() as int) == outer,
    decreases evs.len(),
{
    if evs.len() > 0 {
        let pre = evs.drop_last();
        assert forall|k: int| 0 <= k <= pre.len() implies list_depth(
            #[trigger] pre.subrange(0, k),
        ) >= 0 by {
            assert(pre.subrange(0, k) =~= evs.subrange(0, k));
        }
        lemma_inner_lists(st, outer, pre);
        let a = run(st, pre);
        lemma_step_lists(a, evs.last());
        assert(evs.subrange(0, evs.len() as int) =~= evs);
        let b = run(st, evs);
        let m = outer.len() as int;
        assert(b.lists.subrange(0, m) =~= a.lists.subrange(0, m));
    }
}

/// Numbering at one level does not depend on lists nested inside it: a
/// nested list, from its start to its end, leaves every enclosing list's
/// counter as it was.
pub proof fn lemma_nested_list_isolated(
    st: ConvView,
    start: Option<u64>,
    inner: Seq<EventView>,
)
    requires
        lists_nested(inner),
    ensures
        run(st, seq![EventView::StartList(start)] + inner + seq![EventView::EndList]).lists
            == st.lists,
{
    let s1 = step(st, EventView::StartList(start));
    let evs = seq![EventView::StartList(start)] + inner + seq![EventView::EndList];
    assert(s1.lists.subrange(0, st.lists.len() as int) =~= st.lists);
    lemma_inner_lists(s1, st.lists, inner);
    assert(evs.drop_last() =~= seq![EventView::StartList(start)] + inner);
    lemma_run_split(st, seq![EventView::StartList(start)], inner);
    let one = seq![EventView::StartList(start)];
    assert(one.drop_last() =~= Seq::<EventView>::empty());
    assert(run(st, one.drop_last()) == st);
    assert(one.last() == EventView::StartList(start));
    assert(run(st, one) == s1);
    assert(inner.subrange(0, inner.len() as int) =~= inner);
    let a = run(s1, inner);
    assert(a.lists.len() == st.lists.len() + 1);
    assert(a.lists.drop_last() =~= st.lists);
}

proof fn lemma_run_split(st: ConvView, a: Seq<EventView>, b: Seq<EventView>)
    ensures
        run(st, a + b) == run(run(st, a), b),
    decreases b.len(),
{
    if b.len() == 0 {
        assert(a + b =~= a);
    } else {
        assert((a + b).drop_last() =~= a + b.drop_last());
        lemma_run_split(st, a, b.drop_last());
    }
}

/// Two code blocks in a row keep a gap: after one block closes and the next
/// opens, the rows are the closing padding row, a row without background,
/// and the opening padding row as the last row.
pub proof fn lemma_code_blocks_gap(st: ConvView)
    ensures
        ({
            let s = step(step(st, EventView::EndCodeBlock), EventView::StartCodeBlock);
            let n = st.lines.len() as int;
            s.lines.len() >= n + 3 && s.lines.subrange(0, n + 2) == st.lines + seq![
                pad_v(st.theme),
                blank_v(),
            ] && s.lines.last() == pad_v(st.theme) && s.lines[n + 1].style.bg is None
        }),
{
    let s1 = step(st, EventView::EndCodeBlock);
    let s = step(s1, EventView::StartCodeBlock);
    let n = st.lines.len() as int;
    assert(s1.lines =~= st.lines + seq![pad_v(st.theme), blank_v()]);
    let f = crate::slides::flush_line(ConvView { in_code: true, ..s1 });
    assert(f.lines.subrange(0, n + 2) =~= s1.lines);
    assert(s.lines.subrange(0, n + 2) =~= st.lines + seq![pad_v(st.theme), blank_v()]);
}

/// A code block that ends a slide keeps its closing padding row: when the
/// slide is finished next (at a rule or at the end of input) and is not a
/// two-column slide, its last line is that padding row.
pub proof fn lemma_code_block_last_padding(st: ConvView)
    requires
        resolve(
            step(st, EventView::EndCodeBlock).pending_layout,
            st.default_layout,
            SlideLayout::Default,
        ) != SlideLayout::TwoColumn,
    ensures
        ({
            let f = flush_slide(step(st, EventView::EndCodeBlock));
            f.slides.len() == st.slides.len() + 1 && f.slides.last().content.last() == pad_v(
                st.theme,
            )
        }),
{
    let s1 = step(st, EventView::EndCodeBlock);
    assert(s1.spans.len() == 0);
    assert(flush_pending(s1) == s1);
    let l = s1.lines;
    assert(l.drop_last() =~= st.lines.push(pad_v(st.theme)));
    assert(trim_blank(l) == trim_blank(l.drop_last()));
    assert(!is_blank_line(pad_v(st.theme)));
    assert(trim_blank(l.drop_last()) == l.drop_last());
}

/// A `transition:` directive comment becomes the pending transition, which
/// then wins over the document's default.
pub proof fn lemma_transition_directive(st: ConvView, html: Seq<char>, t: crate::frontmatter::TransitionKind)
    requires
        crate::directive::directive_of(html) == Some(crate::directive::DirectiveView::Transition(t)),
    ensures
        step(st, EventView::Html(html)).pending_transition == Some(t),
        resolve(
            step(st, EventView::Html(html)).pending_transition,
            st.default_transition,
            crate::frontmatter::TransitionKind::SlideIn,
        ) == t,
{
}

/// The part of the compiler's state that decides which headings become
/// banners and with what text and font.
pub open spec fn same_banner_inputs(a: ConvView, b: ConvView) -> bool {
    &&& a.in_heading == b.in_heading
    &&& a.heading == b.heading
    &&& a.pending_figlet == b.pending_figlet
    &&& a.default_figlet == b.default_figlet
    &&& a.requests == b.requests
}

proof fn lemma_code_pieces_banner_fields(st: ConvView, pieces: Seq<Seq<char>>)
    ensures
        same_banner_inputs(code_pieces(st, pieces), st),
    decreases pieces.len(),
{
    if pieces.len() > 0 {
        lemma_code_pieces_banner_fields(st, pieces.drop_last());
    }
}

proof fn lemma_step_banner_inputs(a: ConvView, b: ConvView, e: EventView)
    requires
        same_banner_inputs(a, b),
    ensures
        same_banner_inputs(step(a, e), step(b, e)),
{
    if let EventView::Text(t) = e {
        lemma_code_pieces_banner_fields(a, crate::text::split_nl(t));
        lemma_code_pieces_banner_fields(b, crate::text::split_nl(t));
    }
}

proof fn lemma_run_banner_inputs(a: ConvView, b: ConvView, evs: Seq<EventView>)
    requires
        same_banner_inputs(a, b),
    ensures
        same_banner_inputs(run(a, evs), run(b, evs)),
    decreases evs.len(),
{
    if evs.len() > 0 {
        lemma_run_banner_inputs(a, b, evs.drop_last());
        lemma_step_banner_inputs(run(a, evs.drop_last()), run(b, evs.drop_last()), evs.last());
    }
}

/// Which headings are set as banners, with which text and font, does not
/// depend on the banner art supplied: the requests gathered with no art are
/// the ones that a compilation with the art meets.
pub proof fn lemma_requests_independent(
    theme: Theme,
    fm: FrontmatterView,
    first: Seq<Option<Seq<char>>>,
    second: Seq<Option<Seq<char>>>,
    evs: Seq<EventView>,
)
    ensures
        compiled(theme, fm, first, evs).requests == compiled(theme, fm, second, evs).requests,
{
    lemma_run_banner_inputs(initial(theme, fm, first), initial(theme, fm, second), evs);
}

/// The pending content of a slide: the finished lines and the line being
/// built, without trailing blank lines.
pub open spec fn pending_body(st: ConvView) -> Seq<LineView> {
    trim_blank(flush_pending(st).lines)
}

/// Ending a slide: blank content adds no slide; otherwise exactly one slide
/// is appended, with the transition and layout that directive precedence
/// gives, and a single-column slide's lines are the pending content as is
/// (only trailing rows without spans or background are dropped).
pub proof fn lemma_flush_slide(st: ConvView)
    ensures
        pending_body(st).len() == 0 ==> flush_slide(st).slides == st.slides,
        pending_body(st).len() > 0 ==> ({
            let f = flush_slide(st).slides;
            &&& f.len() == st.slides.len() + 1
            &&& f.subrange(0, st.slides.len() as int) == st.slides
            &&& f.last().transition == resolve(
                st.pending_transition,
                st.default_transition,
                crate::frontmatter::TransitionKind::SlideIn,
            )
            &&& f.last().layout == resolve(st.pending_layout, st.default_layout, SlideLayout::Default)
            &&& f.last().layout != SlideLayout::TwoColumn ==> f.last().content == pending_body(st)
        }),
{
    lemma_flush_slide_count(st);
}

/// The end of input is the last slide boundary: a document without rules
/// whose content is not all blank gives exactly one slide.
pub proof fn lemma_single_slide(
    theme: Theme,
    fm: FrontmatterView,
    banners: Seq<Option<Seq<char>>>,
    evs: Seq<EventView>,
)
    requires
        rule_count(evs) == 0,
        has_content(run(initial(theme, fm, banners), evs)),
    ensures
        compiled(theme, fm, banners, evs).slides.len() == 1,
{
    lemma_no_rules(evs);
    lemma_slide_count(theme, fm, banners, evs);
}

proof fn lemma_no_rules(evs: Seq<EventView>)
    requires
        rule_count(evs) == 0,
    ensures
        forall|k: int| 0 <= k < evs.len() ==> !(#[trigger] evs[k] is Rule),
    decreases evs.len(),
{
    if evs.len() > 0 {
        lemma_no_rules(evs.drop_last());
        assert forall|k: int| 0 <= k < evs.len() implies !(#[trigger] evs[k] is Rule) by {
            if k < evs.len() - 1 {
                assert(evs[k] == evs.drop_last()[k]);
            }
        }
    }
}

/// A code block that opens after a row without background (such as the gap
/// after an earlier code block) keeps that row: only the opening padding
/// row is added.
pub proof fn lemma_code_block_keeps_gap(st: ConvView)
    requires
        st.spans.len() == 0,
        !st.in_quote,
        st.lines.len() == 0 || st.lines.last().style.bg is None,
    ensures
        step(st, EventView::StartCodeBlock).lines == st.lines.push(pad_v(st.theme)),
        step(st, EventView::StartCodeBlock).in_code,
{
    let f = crate::slides::flush_line(ConvView { in_code: true, ..st });
    assert(f.lines.drop_last() =~= st.lines);
    if st.lines.len() > 0 {
        assert(f.lines[f.lines.len() - 2] == st.lines.last());
    }
}

} // verus!
