//! Document-wide defaults from a leading `---` block.
use vstd::prelude::*;
use crate::text::{
    any_visible, chars_of, copy_range, equals, find_char, find_seq, find_str, has_prefix,
    has_visible, index_of, lemma_index_of, parse_percent, percent_of, skip_ws, split_lines,
    split_nl, starts_with, string_of, trim, trim_chars, trim_start,
};

verus! {

/// How a slide's content is arranged.
#[derive(Clone, Copy, Debug, PartialEq, Eq, Structural)]
pub enum SlideLayout {
    Default,
    Center,
    TwoColumn,
}

/// The animation that brings a slide in.
#[derive(Clone, Copy, Debug, PartialEq, Eq, Structural)]
pub enum TransitionKind {
    /// No animation: the slide appears at once.
    Instant,
    SlideIn,
    Fade,
    Dissolve,
    Coalesce,
    SweepIn,
    Lines,
    LinesCross,
    LinesRgb,
    SlideRgb,
}

/// The layout that a directive value names; anything else is `Default`.
pub open spec fn layout_named(v: Seq<char>) -> SlideLayout {
    if v == "center"@ {
        SlideLayout::Center
    } else if v == "two-column"@ {
        SlideLayout::TwoColumn
    } else {
        SlideLayout::Default
    }
}

/// The transition that a directive value names; anything else is `SlideIn`.
pub open spec fn transition_named(v: Seq<char>) -> TransitionKind {
    if v == "fade"@ {
        TransitionKind::Fade
    } else if v == "dissolve"@ {
        TransitionKind::Dissolve
    } else if v == "coalesce"@ {
        TransitionKind::Coalesce
    } else if v == "sweep"@ || v == "sweep-in"@ {
        TransitionKind::SweepIn
    } else if v == "lines"@ {
        TransitionKind::Lines
    } else if v == "lines-cross"@ {
        TransitionKind::LinesCross
    } else if v == "lines-rgb"@ {
        TransitionKind::LinesRgb
    } else if v == "slide-rgb"@ {
        TransitionKind::SlideRgb
    } else {
        TransitionKind::SlideIn
    }
}

pub fn layout_of_value(v: &[char]) -> (r: SlideLayout)
    ensures
        r == layout_named(v@),
{
    if equals(v, "center") {
        SlideLayout::Center
    } else if equals(v, "two-column") {
        SlideLayout::TwoColumn
    } else {
        SlideLayout::Default
    }
}

pub fn transition_of_value(v: &[char]) -> (r: TransitionKind)
    ensures
        r == transition_named(v@),
{
    if equals(v, "fade") {
        TransitionKind::Fade
    } else if equals(v, "dissolve") {
        TransitionKind::Dissolve
    } else if equals(v, "coalesce") {
        TransitionKind::Coalesce
    } else if equals(v, "sweep") || equals(v, "sweep-in") {
        TransitionKind::SweepIn
    } else if equals(v, "lines") {
        TransitionKind::Lines
    } else if equals(v, "lines-cross") {
        TransitionKind::LinesCross
    } else if equals(v, "lines-rgb") {
        TransitionKind::LinesRgb
    } else if equals(v, "slide-rgb") {
        TransitionKind::SlideRgb
    } else {
        TransitionKind::SlideIn
    }
}

/// The layout that a per-slide directive value names, if it names one.
pub open spec fn known_layout(v: Seq<char>) -> Option<SlideLayout> {
    if v == "center"@ {
        Some(SlideLayout::Center)
    } else if v == "two-column"@ {
        Some(SlideLayout::TwoColumn)
    } else if v == "default"@ {
        Some(SlideLayout::Default)
    } else {
        None
    }
}

/// The transition that a per-slide directive value names, if it names one.
pub open spec fn known_transition(v: Seq<char>) -> Option<TransitionKind> {
    if v == "fade"@ {
        Some(TransitionKind::Fade)
    } else if v == "dissolve"@ {
        Some(TransitionKind::Dissolve)
    } else if v == "coalesce"@ {
        Some(TransitionKind::Coalesce)
    } else if v == "sweep"@ || v == "sweep-in"@ {
        Some(TransitionKind::SweepIn)
    } else if v == "lines"@ {
        Some(TransitionKind::Lines)
    } else if v == "lines-cross"@ {
        Some(TransitionKind::LinesCross)
    } else if v == "lines-rgb"@ {
        Some(TransitionKind::LinesRgb)
    } else if v == "slide-rgb"@ {
        Some(TransitionKind::SlideRgb)
    } else {
        None
    }
}

pub fn known_layout_of(v: &[char]) -> (r: Option<SlideLayout>)
    ensures
        r == known_layout(v@),
{
    if equals(v, "center") {
        Some(SlideLayout::Center)
    } else if equals(v, "two-column") {
        Some(SlideLayout::TwoColumn)
    } else if equals(v, "default") {
        Some(SlideLayout::Default)
    } else {
        None
    }
}

pub fn known_transition_of(v: &[char]) -> (r: Option<TransitionKind>)
    ensures
        r == known_transition(v@),
{
    if equals(v, "fade") {
        Some(TransitionKind::Fade)
    } else if equals(v, "dissolve") {
        Some(TransitionKind::Dissolve)
    } else if equals(v, "coalesce") {
        Some(TransitionKind::Coalesce)
    } else if equals(v, "sweep") || equals(v, "sweep-in") {
        Some(TransitionKind::SweepIn)
    } else if equals(v, "lines") {
        Some(TransitionKind::Lines)
    } else if equals(v, "lines-cross") {
        Some(TransitionKind::LinesCross)
    } else if equals(v, "lines-rgb") {
        Some(TransitionKind::LinesRgb)
    } else if equals(v, "slide-rgb") {
        Some(TransitionKind::SlideRgb)
    } else {
        None
    }
}

/// File-wide defaults. `image_max_width` is a percentage of the content
/// width; `figlet` is `Some(None)` for the default banner font and
/// `Some(Some(name))` for a named one.
#[derive(Clone, Debug)]
pub struct Frontmatter {
    pub theme: Option<String>,
    pub layout: Option<SlideLayout>,
    pub transition: Option<TransitionKind>,
    pub image_max_width: Option<u32>,
    pub figlet: Option<Option<String>>,
}

pub struct FrontmatterView {
    pub theme: Option<Seq<char>>,
    pub layout: Option<SlideLayout>,
    pub transition: Option<TransitionKind>,
    pub image_max_width: Option<u32>,
    pub figlet: Option<Option<Seq<char>>>,
}

impl View for Frontmatter {
    type V = FrontmatterView;

    open spec fn view(&self) -> FrontmatterView {
        FrontmatterView {
            theme: self.theme.deep_view(),
            layout: self.layout,
            transition: self.transition,
            image_max_width: self.image_max_width,
            figlet: self.figlet.deep_view(),
        }
    }
}

pub open spec fn no_settings() -> FrontmatterView {
    FrontmatterView {
        theme: None,
        layout: None,
        transition: None,
        image_max_width: None,
        figlet: None,
    }
}

impl Frontmatter {
    /// No defaults at all.
    pub fn empty() -> (r: Frontmatter)
        ensures
            r@ == no_settings(),
    {
        Frontmatter { theme: None, layout: None, transition: None, image_max_width: None, figlet: None }
    }
}

impl Default for Frontmatter {
    fn default() -> (r: Frontmatter)
        ensures
            r@ == no_settings(),
    {
        Frontmatter::empty()
    }
}

/// The effect of one `key: value` line of the block.
pub open spec fn apply_setting(fm: FrontmatterView, line: Seq<char>) -> FrontmatterView {
    let l = trim(line);
    if l.len() == 0 || l[0] == '#' {
        fm
    } else {
        match index_of(l, ':') {
            None => fm,
            Some(i) => {
                let key = trim(l.subrange(0, i));
                let value = trim(l.subrange(i + 1, l.len() as int));
                if key == "theme"@ {
                    FrontmatterView { theme: Some(value), ..fm }
                } else if key == "layout"@ {
                    FrontmatterView { layout: Some(layout_named(value)), ..fm }
                } else if key == "transition"@ {
                    FrontmatterView { transition: Some(transition_named(value)), ..fm }
                } else if key == "image_max_width"@ {
                    match percent_of(value) {
                        Some(p) => FrontmatterView { image_max_width: Some(p), ..fm },
                        None => fm,
                    }
                } else if key == "figlet"@ {
                    if value.len() == 0 || value == "true"@ {
                        FrontmatterView { figlet: Some(None), ..fm }
                    } else if value != "false"@ {
                        FrontmatterView { figlet: Some(Some(value)), ..fm }
                    } else {
                        fm
                    }
                } else {
                    fm
                }
            },
        }
    }
}

/// The settings that the block's lines give, later lines winning.
pub open spec fn settings_of(lines: Seq<Seq<char>>) -> FrontmatterView
    decreases lines.len(),
{
    if lines.len() == 0 {
        no_settings()
    } else {
        apply_setting(settings_of(lines.drop_last()), lines.last())
    }
}

/// Where the block is: its inner text and the index at which the body
/// begins, when `s` opens with a well-formed block.
pub open spec fn frontmatter_block(s: Seq<char>) -> Option<(Seq<char>, int)> {
    let t = trim_start(s);
    let off = s.len() - t.len();
    if !has_prefix(t, "---"@) {
        None
    } else {
        let rest = t.subrange(3, t.len() as int);
        match index_of(rest, '\n') {
            None => None,
            Some(nl) => if has_visible(rest.subrange(0, nl)) {
                None
            } else {
                let after = rest.subrange(nl + 1, rest.len() as int);
                match find_seq(after, "\n---"@) {
                    None => None,
                    Some(p) => {
                        let close = off + 3 + nl + 1 + p + 4;
                        let body = if close < s.len() && s[close] == '\n' {
                            close + 1
                        } else {
                            close
                        };
                        Some((after.subrange(0, p + 1), body))
                    },
                }
            },
        }
    }
}

fn apply_setting_exec(fm: &mut Frontmatter, line: &[char])
    ensures
        final(fm)@ == apply_setting(old(fm)@, line@),
{
    let l = trim_chars(line);
    if l.len() == 0 || l[0] == '#' {
        return ;
    }
    match find_char(l.as_slice(), 0, ':') {
        None => {
            proof {
                lemma_index_of(l@, ':', l@.len() as int);
            }
        },
        Some(i) => {
            proof {
                lemma_index_of(l@, ':', i as int);
            }
            let k = copy_range(l.as_slice(), 0, i);
            let key = trim_chars(k.as_slice());
            let v = copy_range(l.as_slice(), i + 1, l.len());
            let value = trim_chars(v.as_slice());
            if equals(key.as_slice(), "theme") {
                fm.theme = Some(string_of(value.as_slice()));
            } else if equals(key.as_slice(), "layout") {
                fm.layout = Some(layout_of_value(value.as_slice()));
            } else if equals(key.as_slice(), "transition") {
                fm.transition = Some(transition_of_value(value.as_slice()));
            } else if equals(key.as_slice(), "image_max_width") {
                match parse_percent(value.as_slice()) {
                    Some(p) => {
                        fm.image_max_width = Some(p);
                    },
                    None => {},
                }
            } else if equals(key.as_slice(), "figlet") {
                if value.len() == 0 || equals(value.as_slice(), "true") {
                    fm.figlet = Some(None);
                } else if !equals(value.as_slice(), "false") {
                    fm.figlet = Some(Some(string_of(value.as_slice())));
                }
            }
        },
    }
}

/// Reads a leading `---` block of `key: value` lines. Returns the defaults it
/// gives and the text after it; without a well-formed block, no defaults and
/// the whole input.
pub fn parse_frontmatter(input: &str) -> (r: (Frontmatter, &str))
    ensures
        match frontmatter_block(input@) {
            None => r.0@ == no_settings() && r.1@ == input@,
            Some((block, body)) => r.0@ == settings_of(split_nl(block)) && 0 <= body
                <= input@.len() && r.1@ == input@.subrange(body, input@.len() as int),
        },
{
    proof {
        reveal_strlit("---");
        reveal_strlit("\n---");
    }
    let s = chars_of(input);
    let n = s.len();
    let a = skip_ws(s.as_slice(), 0);
    assert(s@.subrange(0, n as int) =~= s@);
    let t = copy_range(s.as_slice(), a, n);
    if !starts_with(t.as_slice(), "---") {
        return (Frontmatter::empty(), input);
    }
    let rest = copy_range(t.as_slice(), 3, t.len());
    let nl = match find_char(rest.as_slice(), 0, '\n') {
        None => {
            proof {
                lemma_index_of(rest@, '\n', rest@.len() as int);
            }
            return (Frontmatter::empty(), input);
        },
        Some(nl) => nl,
    };
    proof {
        lemma_index_of(rest@, '\n', nl as int);
    }
    let head = copy_range(rest.as_slice(), 0, nl);
    if any_visible(head.as_slice()) {
        return (Frontmatter::empty(), input);
    }
    let after = copy_range(rest.as_slice(), nl + 1, rest.len());
    let p = match find_str(after.as_slice(), "\n---") {
        None => {
            return (Frontmatter::empty(), input);
        },
        Some(p) => p,
    };
    let block = copy_range(after.as_slice(), 0, p + 1);
    let close = a + 3 + nl + 1 + p + 4;
    let body = if close < n && s[close] == '\n' {
        close + 1
    } else {
        close
    };
    let lines = split_lines(block.as_slice());
    let mut fm = Frontmatter::empty();
    let mut i: usize = 0;
    while i < lines.len()
        invariant
            i <= lines@.len(),
            lines@.map_values(|v: Vec<char>| v@) == split_nl(block@),
            fm@ == settings_of(split_nl(block@).subrange(0, i as int)),
        decreases lines@.len() - i,
    {
        let ghost done = split_nl(block@).subrange(0, i as int);
        apply_setting_exec(&mut fm, lines[i].as_slice());
        i = i + 1;
        proof {
            let m = lines@.map_values(|v: Vec<char>| v@);
            assert(m[i - 1] == lines@[i - 1]@);
            assert(split_nl(block@).subrange(0, i as int).drop_last() =~= done);
        }
    }
    assert(split_nl(block@).subrange(0, i as int) =~= split_nl(block@));
    (fm, input.substring_char(body, n))
}

} // verus!
