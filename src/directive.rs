//! Per-slide directives written as HTML comments.
use vstd::prelude::*;
use crate::frontmatter::{
    known_layout, known_layout_of, known_transition, known_transition_of, SlideLayout,
    TransitionKind,
};
use crate::text::{
    copy_range, ends_with, equals, has_prefix, has_suffix, parse_percent, percent_of,
    starts_with, string_of, trim, trim_chars,
};

verus! {

/// One directive: a layout, a transition, a banner font (`None` for the
/// default font), or an image width cap in percent.
#[derive(Debug)]
pub enum CommentDirective {
    Layout(SlideLayout),
    Transition(TransitionKind),
    Figlet(Option<String>),
    ImageMaxWidth(u32),
}

pub enum DirectiveView {
    Layout(SlideLayout),
    Transition(TransitionKind),
    Figlet(Option<Seq<char>>),
    ImageMaxWidth(u32),
}

impl View for CommentDirective {
    type V = DirectiveView;

    open spec fn view(&self) -> DirectiveView {
        match self {
            CommentDirective::Layout(l) => DirectiveView::Layout(*l),
            CommentDirective::Transition(t) => DirectiveView::Transition(*t),
            CommentDirective::Figlet(f) => DirectiveView::Figlet(f.deep_view()),
            CommentDirective::ImageMaxWidth(p) => DirectiveView::ImageMaxWidth(*p),
        }
    }
}

/// The text inside `<!--` and `-->`, trimmed, if `html` is one comment.
pub open spec fn comment_body(html: Seq<char>) -> Option<Seq<char>> {
    let t = trim(html);
    if !has_prefix(t, "<!--"@) {
        None
    } else {
        let u = t.subrange(4, t.len() as int);
        if !has_suffix(u, "-->"@) {
            None
        } else {
            Some(trim(u.subrange(0, u.len() - 3)))
        }
    }
}

/// The directive that an HTML fragment holds, if any. A `layout:` or
/// `transition:` value that names no known layout or transition makes no
/// directive, so the document's default still applies.
pub open spec fn directive_of(html: Seq<char>) -> Option<DirectiveView> {
    match comment_body(html) {
        None => None,
        Some(inner) => if has_prefix(inner, "layout:"@) {
            match known_layout(trim(inner.subrange(7, inner.len() as int))) {
                Some(l) => Some(DirectiveView::Layout(l)),
                None => None,
            }
        } else if has_prefix(inner, "transition:"@) {
            match known_transition(trim(inner.subrange(11, inner.len() as int))) {
                Some(t) => Some(DirectiveView::Transition(t)),
                None => None,
            }
        } else if inner == "figlet"@ {
            Some(DirectiveView::Figlet(None))
        } else if has_prefix(inner, "figlet:"@) {
            Some(DirectiveView::Figlet(Some(trim(inner.subrange(7, inner.len() as int)))))
        } else if has_prefix(inner, "image_max_width:"@) {
            match percent_of(trim(inner.subrange(16, inner.len() as int))) {
                Some(p) => Some(DirectiveView::ImageMaxWidth(p)),
                None => None,
            }
        } else {
            None
        },
    }
}

fn comment_inner(html: &[char]) -> (r: Option<Vec<char>>)
    ensures
        match comment_body(html@) {
            None => r is None,
            Some(b) => r matches Some(v) && v@ == b,
        },
{
    proof {
        reveal_strlit("<!--");
        reveal_strlit("-->");
    }
    let t = trim_chars(html);
    if !starts_with(t.as_slice(), "<!--") {
        return None;
    }
    let u = copy_range(t.as_slice(), 4, t.len());
    if !ends_with(u.as_slice(), "-->") {
        return None;
    }
    let w = copy_range(u.as_slice(), 0, u.len() - 3);
    Some(trim_chars(w.as_slice()))
}

fn value_after(inner: &Vec<char>, k: usize) -> (r: Vec<char>)
    requires
        k <= inner@.len(),
    ensures
        r@ == trim(inner@.subrange(k as int, inner@.len() as int)),
{
    let v = copy_range(inner.as_slice(), k, inner.len());
    trim_chars(v.as_slice())
}

/// Reads a directive comment such as `<!-- layout: center -->`. Fragments
/// that are not a directive give `None`.
pub fn parse_comment(html: &str) -> (r: Option<CommentDirective>)
    ensures
        match directive_of(html@) {
            None => r is None,
            Some(d) => r matches Some(x) && x@ == d,
        },
{
    proof {
        reveal_strlit("layout:");
        reveal_strlit("transition:");
        reveal_strlit("figlet:");
        reveal_strlit("image_max_width:");
    }
    let h = crate::text::chars_of(html);
    let inner = match comment_inner(h.as_slice()) {
        None => {
            return None;
        },
        Some(i) => i,
    };
    if starts_with(inner.as_slice(), "layout:") {
        let v = value_after(&inner, 7);
        return match known_layout_of(v.as_slice()) {
            Some(l) => Some(CommentDirective::Layout(l)),
            None => None,
        };
    }
    if starts_with(inner.as_slice(), "transition:") {
        let v = value_after(&inner, 11);
        return match known_transition_of(v.as_slice()) {
            Some(t) => Some(CommentDirective::Transition(t)),
            None => None,
        };
    }
    if equals(inner.as_slice(), "figlet") {
        return Some(CommentDirective::Figlet(None));
    }
    if starts_with(inner.as_slice(), "figlet:") {
        let v = value_after(&inner, 7);
        return Some(CommentDirective::Figlet(Some(string_of(v.as_slice()))));
    }
    if starts_with(inner.as_slice(), "image_max_width:") {
        let v = value_after(&inner, 16);
        match parse_percent(v.as_slice()) {
            Some(p) => {
                return Some(CommentDirective::ImageMaxWidth(p));
            },
            None => {},
        }
    }
    None
}

/// The layout that a `layout:` comment names, when it names one of
/// `center`, `two-column` or `default`.
pub open spec fn layout_comment(html: Seq<char>) -> Option<SlideLayout> {
    match comment_body(html) {
        Some(inner) => if has_prefix(inner, "layout:"@) {
            known_layout(trim(inner.subrange(7, inner.len() as int)))
        } else {
            None
        },
        None => None,
    }
}

/// Reads a `<!-- layout: ... -->` comment that names a known layout.
pub fn parse_layout_comment(html: &str) -> (r: Option<SlideLayout>)
    ensures
        r == layout_comment(html@),
{
    proof {
        reveal_strlit("layout:");
    }
    let h = crate::text::chars_of(html);
    let inner = match comment_inner(h.as_slice()) {
        None => {
            return None;
        },
        Some(i) => i,
    };
    if !starts_with(inner.as_slice(), "layout:") {
        return None;
    }
    let v = value_after(&inner, 7);
    known_layout_of(v.as_slice())
}

} // verus!
