//! Splitting a slide's lines into two columns at a `|||` line.
use vstd::prelude::*;
use crate::frontmatter::{SlideLayout, TransitionKind};
use crate::slides::{
    is_marker_line, marker_index, split_columns, trim_empty_end, trim_empty_start, Slide,
    SlideImage, SlideView,
};
use crate::style::{line_text, lines_view, spans_view, Line, LineView};
use crate::text::{chars_of, equals, push_chars, trim_chars};

verus! {

/// The text of a line, its spans' contents one after another.
pub fn line_text_of(l: &Line) -> (r: Vec<char>)
    ensures
        r@ == line_text(l@.spans),
{
    let mut r: Vec<char> = Vec::new();
    let mut i: usize = 0;
    while i < l.spans.len()
        invariant
            i <= l.spans@.len(),
            r@ == line_text(spans_view(l.spans@).subrange(0, i as int)),
        decreases l.spans@.len() - i,
    {
        let c = chars_of(l.spans[i].content.as_str());
        push_chars(&mut r, c.as_slice());
        proof {
            let sv = spans_view(l.spans@);
            assert(sv.subrange(0, i + 1).drop_last() =~= sv.subrange(0, i as int));
            assert(sv[i as int] == l.spans@[i as int]@);
        }
        i = i + 1;
    }
    assert(spans_view(l.spans@).subrange(0, i as int) =~= spans_view(l.spans@));
    r
}

fn is_marker(l: &Line) -> (r: bool)
    ensures
        r == is_marker_line(l@),
{
    let t = line_text_of(l);
    let tr = trim_chars(t.as_slice());
    equals(tr.as_slice(), "|||")
}

proof fn lemma_marker_index(lines: Seq<LineView>, i: int)
    requires
        0 <= i <= lines.len(),
        i < lines.len() ==> is_marker_line(lines[i]),
        forall|k: int| 0 <= k < i ==> !is_marker_line(#[trigger] lines[k]),
    ensures
        marker_index(lines) == (if i < lines.len() {
            Some(i)
        } else {
            None::<int>
        }),
    decreases lines.len(),
{
    if lines.len() > 0 && i > 0 {
        assert(!is_marker_line(lines[0]));
        assert forall|k: int| 0 <= k < i - 1 implies !is_marker_line(
            #[trigger] lines.drop_first()[k],
        ) by {
            assert(lines.drop_first()[k] == lines[k + 1]);
        }
        lemma_marker_index(lines.drop_first(), i - 1);
    }
}

/// Drops the trailing lines that hold no span.
fn trim_empty_tail(v: &mut Vec<Line>)
    ensures
        lines_view(final(v)@) == trim_empty_end(lines_view(old(v)@)),
{
    while v.len() > 0 && v[v.len() - 1].spans.len() == 0
        invariant
            trim_empty_end(lines_view(v@)) == trim_empty_end(lines_view(old(v)@)),
        decreases v@.len(),
    {
        let ghost before = v@;
        v.pop();
        proof {
            assert(lines_view(v@) =~= lines_view(before).drop_last());
        }
    }
}

/// Drops the leading lines that hold no span.
fn trim_empty_head(v: Vec<Line>) -> (r: Vec<Line>)
    ensures
        lines_view(r@) == trim_empty_start(lines_view(v@)),
{
    let mut k: usize = 0;
    assert(lines_view(v@).subrange(0, v@.len() as int) =~= lines_view(v@));
    while k < v.len() && v[k].spans.len() == 0
        invariant
            k <= v@.len(),
            trim_empty_start(lines_view(v@)) == trim_empty_start(
                lines_view(v@).subrange(k as int, v@.len() as int),
            ),
        decreases v@.len() - k,
    {
        assert(lines_view(v@).subrange(k as int, v@.len() as int).drop_first() =~= lines_view(
            v@,
        ).subrange(k + 1, v@.len() as int));
        k = k + 1;
    }
    let mut v = v;
    let ghost before = v@;
    let r = v.split_off(k);
    assert(lines_view(r@) =~= lines_view(before).subrange(k as int, before.len() as int));
    r
}

/// Splits a two-column slide's lines at the first line whose trimmed text is
/// `|||`: the lines before it form the left column, those after it the
/// right; blank edges are trimmed. Without such a line all lines form the
/// left column and there is no right one.
pub fn split_two_column(lines: Vec<Line>) -> (r: Slide)
    ensures
        r@ == (SlideView {
            layout: SlideLayout::TwoColumn,
            content: split_columns(lines_view(lines@)).0,
            right_content: split_columns(lines_view(lines@)).1,
            images: Seq::empty(),
            transition: TransitionKind::Instant,
        }),
{
    let ghost lv = lines_view(lines@);
    let mut i: usize = 0;
    while i < lines.len() && !is_marker(&lines[i])
        invariant
            i <= lines@.len(),
            lv == lines_view(lines@),
            forall|k: int| 0 <= k < i ==> !is_marker_line(#[trigger] lv[k]),
        decreases lines@.len() - i,
    {
        i = i + 1;
    }
    let images: Vec<SlideImage> = Vec::new();
    assert(crate::slides::images_view(images@) =~= Seq::empty());
    if i < lines.len() {
        proof {
            lemma_marker_index(lv, i as int);
        }
        let mut left = lines;
        let mut right = left.split_off(i + 1);
        left.pop();
        assert(lines_view(left@) =~= lv.subrange(0, i as int));
        assert(lines_view(right@) =~= lv.subrange(i + 1, lv.len() as int));
        trim_empty_tail(&mut left);
        trim_empty_tail(&mut right);
        let right = trim_empty_head(right);
        Slide {
            layout: SlideLayout::TwoColumn,
            content: left,
            right_content: Some(right),
            images,
            transition: TransitionKind::Instant,
        }
    } else {
        proof {
            lemma_marker_index(lv, i as int);
        }
        Slide {
            layout: SlideLayout::TwoColumn,
            content: lines,
            right_content: None,
            images,
            transition: TransitionKind::Instant,
        }
    }
}

} // verus!
