//! Named color themes.
use vstd::prelude::*;
use crate::style::Color;
use crate::text::{chars_of, copy_range, equals, has_prefix, starts_with, trim, trim_chars};

verus! {

/// The colors of each role in a presentation.
#[derive(Clone, Copy, Debug, PartialEq, Eq, Structural)]
pub struct Theme {
    pub fg: Color,
    pub bg: Color,
    pub h1: Color,
    pub h2: Color,
    pub h3: Color,
    pub h4: Color,
    pub inline_code_fg: Color,
    pub surface: Color,
    pub block_quote_prefix: Color,
    pub list_bullet: Color,
    pub status_fg: Color,
    pub status_bg: Color,
}

pub open spec fn rgb(r: u8, g: u8, b: u8) -> Color {
    Color::Rgb(r, g, b)
}

pub open spec fn mocha() -> Theme {
    Theme {
        fg: rgb(0xcd, 0xd6, 0xf4),
        bg: rgb(0x1e, 0x1e, 0x2e),
        h1: rgb(0x94, 0xe2, 0xd5),
        h2: rgb(0xcb, 0xa6, 0xf7),
        h3: rgb(0x89, 0xb4, 0xfa),
        h4: rgb(0xf3, 0x8b, 0xa8),
        inline_code_fg: rgb(0xa6, 0xe3, 0xa1),
        surface: rgb(0x31, 0x32, 0x44),
        block_quote_prefix: rgb(0xf9, 0xe2, 0xaf),
        list_bullet: rgb(0x6c, 0x70, 0x86),
        status_fg: rgb(0xcd, 0xd6, 0xf4),
        status_bg: rgb(0x31, 0x32, 0x44),
    }
}

pub open spec fn macchiato() -> Theme {
    Theme {
        fg: rgb(0xca, 0xd3, 0xf5),
        bg: rgb(0x24, 0x27, 0x3a),
        h1: rgb(0x8b, 0xd5, 0xca),
        h2: rgb(0xc6, 0xa0, 0xf6),
        h3: rgb(0x8a, 0xad, 0xf4),
        h4: rgb(0xed, 0x87, 0x96),
        inline_code_fg: rgb(0xa6, 0xda, 0x95),
        surface: rgb(0x36, 0x3a, 0x4f),
        block_quote_prefix: rgb(0xee, 0xd4, 0x9f),
        list_bullet: rgb(0x6e, 0x73, 0x8d),
        status_fg: rgb(0xca, 0xd3, 0xf5),
        status_bg: rgb(0x36, 0x3a, 0x4f),
    }
}

pub open spec fn frappe() -> Theme {
    Theme {
        fg: rgb(0xc6, 0xd0, 0xf5),
        bg: rgb(0x30, 0x34, 0x46),
        h1: rgb(0x81, 0xc8, 0xbe),
        h2: rgb(0xca, 0x9e, 0xe6),
        h3: rgb(0x8c, 0xaa, 0xee),
        h4: rgb(0xe7, 0x82, 0x84),
        inline_code_fg: rgb(0xa6, 0xd1, 0x89),
        surface: rgb(0x41, 0x45, 0x59),
        block_quote_prefix: rgb(0xe5, 0xc8, 0x90),
        list_bullet: rgb(0x73, 0x79, 0x94),
        status_fg: rgb(0xc6, 0xd0, 0xf5),
        status_bg: rgb(0x41, 0x45, 0x59),
    }
}

pub open spec fn latte() -> Theme {
    Theme {
        fg: rgb(0x4c, 0x4f, 0x69),
        bg: rgb(0xef, 0xf1, 0xf5),
        h1: rgb(0x17, 0x92, 0x99),
        h2: rgb(0x88, 0x39, 0xef),
        h3: rgb(0x1e, 0x66, 0xf5),
        h4: rgb(0xd2, 0x0f, 0x39),
        inline_code_fg: rgb(0x40, 0xa0, 0x2b),
        surface: rgb(0xcc, 0xd0, 0xda),
        block_quote_prefix: rgb(0xdf, 0x8e, 0x1d),
        list_bullet: rgb(0x9c, 0xa0, 0xb0),
        status_fg: rgb(0x4c, 0x4f, 0x69),
        status_bg: rgb(0xcc, 0xd0, 0xda),
    }
}

impl Theme {
    pub fn catppuccin_mocha() -> (r: Theme)
        ensures
            r == mocha(),
    {
        Theme {
            fg: Color::Rgb(0xcd, 0xd6, 0xf4),
            bg: Color::Rgb(0x1e, 0x1e, 0x2e),
            h1: Color::Rgb(0x94, 0xe2, 0xd5),
            h2: Color::Rgb(0xcb, 0xa6, 0xf7),
            h3: Color::Rgb(0x89, 0xb4, 0xfa),
            h4: Color::Rgb(0xf3, 0x8b, 0xa8),
            inline_code_fg: Color::Rgb(0xa6, 0xe3, 0xa1),
            surface: Color::Rgb(0x31, 0x32, 0x44),
            block_quote_prefix: Color::Rgb(0xf9, 0xe2, 0xaf),
            list_bullet: Color::Rgb(0x6c, 0x70, 0x86),
            status_fg: Color::Rgb(0xcd, 0xd6, 0xf4),
            status_bg: Color::Rgb(0x31, 0x32, 0x44),
        }
    }

    pub fn catppuccin_macchiato() -> (r: Theme)
        ensures
            r == macchiato(),
    {
        Theme {
            fg: Color::Rgb(0xca, 0xd3, 0xf5),
            bg: Color::Rgb(0x24, 0x27, 0x3a),
            h1: Color::Rgb(0x8b, 0xd5, 0xca),
            h2: Color::Rgb(0xc6, 0xa0, 0xf6),
            h3: Color::Rgb(0x8a, 0xad, 0xf4),
            h4: Color::Rgb(0xed, 0x87, 0x96),
            inline_code_fg: Color::Rgb(0xa6, 0xda, 0x95),
            surface: Color::Rgb(0x36, 0x3a, 0x4f),
            block_quote_prefix: Color::Rgb(0xee, 0xd4, 0x9f),
            list_bullet: Color::Rgb(0x6e, 0x73, 0x8d),
            status_fg: Color::Rgb(0xca, 0xd3, 0xf5),
            status_bg: Color::Rgb(0x36, 0x3a, 0x4f),
        }
    }

    pub fn catppuccin_frappe() -> (r: Theme)
        ensures
            r == frappe(),
    {
        Theme {
            fg: Color::Rgb(0xc6, 0xd0, 0xf5),
            bg: Color::Rgb(0x30, 0x34, 0x46),
            h1: Color::Rgb(0x81, 0xc8, 0xbe),
            h2: Color::Rgb(0xca, 0x9e, 0xe6),
            h3: Color::Rgb(0x8c, 0xaa, 0xee),
            h4: Color::Rgb(0xe7, 0x82, 0x84),
            inline_code_fg: Color::Rgb(0xa6, 0xd1, 0x89),
            surface: Color::Rgb(0x41, 0x45, 0x59),
            block_quote_prefix: Color::Rgb(0xe5, 0xc8, 0x90),
            list_bullet: Color::Rgb(0x73, 0x79, 0x94),
            status_fg: Color::Rgb(0xc6, 0xd0, 0xf5),
            status_bg: Color::Rgb(0x41, 0x45, 0x59),
        }
    }

    pub fn catppuccin_latte() -> (r: Theme)
        ensures
            r == latte(),
    {
        Theme {
            fg: Color::Rgb(0x4c, 0x4f, 0x69),
            bg: Color::Rgb(0xef, 0xf1, 0xf5),
            h1: Color::Rgb(0x17, 0x92, 0x99),
            h2: Color::Rgb(0x88, 0x39, 0xef),
            h3: Color::Rgb(0x1e, 0x66, 0xf5),
            h4: Color::Rgb(0xd2, 0x0f, 0x39),
            inline_code_fg: Color::Rgb(0x40, 0xa0, 0x2b),
            surface: Color::Rgb(0xcc, 0xd0, 0xda),
            block_quote_prefix: Color::Rgb(0xdf, 0x8e, 0x1d),
            list_bullet: Color::Rgb(0x9c, 0xa0, 0xb0),
            status_fg: Color::Rgb(0x4c, 0x4f, 0x69),
            status_bg: Color::Rgb(0xcc, 0xd0, 0xda),
        }
    }
}

impl Default for Theme {
    fn default() -> (r: Theme)
        ensures
            r == mocha(),
    {
        Theme::catppuccin_mocha()
    }
}

/// What `str::to_lowercase` gives for a string.
pub uninterp spec fn lower_of(s: Seq<char>) -> Seq<char>;

/// Relies on `str::to_lowercase`: the result depends on the characters alone.
#[verifier::external_body]
fn lowercase(s: &[char]) -> (r: Vec<char>)
    ensures
        r@ == lower_of(s@),
{
    s.iter().collect::<String>().to_lowercase().chars().collect()
}

/// The theme that a short name (`mocha`, `macchiato`, `frappe`, `latte`)
/// names.
pub open spec fn theme_of_short(n: Seq<char>) -> Option<Theme> {
    if n == "mocha"@ {
        Some(mocha())
    } else if n == "macchiato"@ {
        Some(macchiato())
    } else if n == "frappe"@ || n == "frappé"@ {
        Some(frappe())
    } else if n == "latte"@ {
        Some(latte())
    } else {
        None
    }
}

/// The theme that a normalized name names, with or without `catppuccin-`.
pub open spec fn theme_named(n: Seq<char>) -> Option<Theme> {
    if has_prefix(n, "catppuccin-"@) {
        theme_of_short(n.subrange(11, n.len() as int))
    } else {
        theme_of_short(n)
    }
}

/// Looks a theme up by a normalized (trimmed, lower-case) name.
pub fn theme_from_normalized(n: &[char]) -> (r: Option<Theme>)
    ensures
        r == theme_named(n@),
{
    proof {
        reveal_strlit("catppuccin-");
    }
    let short = if starts_with(n, "catppuccin-") {
        copy_range(n, 11, n.len())
    } else {
        copy_range(n, 0, n.len())
    };
    assert(n@.subrange(0, n@.len() as int) =~= n@);
    if equals(short.as_slice(), "mocha") {
        Some(Theme::catppuccin_mocha())
    } else if equals(short.as_slice(), "macchiato") {
        Some(Theme::catppuccin_macchiato())
    } else if equals(short.as_slice(), "frappe") || equals(short.as_slice(), "frappé") {
        Some(Theme::catppuccin_frappe())
    } else if equals(short.as_slice(), "latte") {
        Some(Theme::catppuccin_latte())
    } else {
        None
    }
}

/// Resolves a theme name such as `catppuccin-mocha` or `Mocha`: surrounding
/// whitespace and letter case do not matter.
pub fn theme_from_name(name: &str) -> (r: Option<Theme>)
    ensures
        r == theme_named(lower_of(trim(name@))),
{
    let c = chars_of(name);
    let t = trim_chars(c.as_slice());
    let l = lowercase(t.as_slice());
    theme_from_normalized(l.as_slice())
}

/// The theme that a document's frontmatter names, if it names a known one.
pub fn theme_from_markdown(markdown: &str) -> (r: Option<Theme>)
    ensures
        match crate::frontmatter::frontmatter_block(markdown@) {
            Some((block, _)) => match crate::frontmatter::settings_of(crate::text::split_nl(block)).theme {
                Some(name) => r == theme_named(lower_of(trim(name))),
                None => r is None,
            },
            None => r is None,
        },
{
    let (fm, _body) = crate::frontmatter::parse_frontmatter(markdown);
    match &fm.theme {
        Some(name) => theme_from_name(name.as_str()),
        None => None,
    }
}

} // verus!
