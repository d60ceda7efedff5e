//! Screen areas of a slide and the placement of its images.
use vstd::prelude::*;
use crate::frontmatter::SlideLayout;
use crate::slides::{ImageView, Slide, SlideImage, images_view};
use crate::text::{chars_of, decimal, decimal_text, push_chars, push_str, string_of};
use ratatui::layout::{Constraint, Flex, Layout};

verus! {

/// A rectangle of terminal cells; it never reaches past the last column or
/// row that a `u16` can number.
#[derive(Clone, Copy, Debug, PartialEq, Eq, Structural)]
pub struct Rect {
    pub x: u16,
    pub y: u16,
    pub width: u16,
    pub height: u16,
}

impl Rect {
    pub open spec fn wf(self) -> bool {
        self.x + self.width <= u16::MAX && self.y + self.height <= u16::MAX
    }

    /// A rectangle, its size clamped so that it stays within the `u16` range.
    pub fn new(x: u16, y: u16, width: u16, height: u16) -> (r: Rect)
        ensures
            r.wf(),
            r.x == x && r.y == y,
            r.width == if width as int > u16::MAX - x {
                (u16::MAX - x) as u16
            } else {
                width
            },
            r.height == if height as int > u16::MAX - y {
                (u16::MAX - y) as u16
            } else {
                height
            },
    {
        let max_width = u16::MAX - x;
        let max_height = u16::MAX - y;
        Rect {
            x,
            y,
            width: if width > max_width {
                max_width
            } else {
                width
            },
            height: if height > max_height {
                max_height
            } else {
                height
            },
        }
    }

    /// The rectangle inside this one with `h` columns and `v` rows of margin
    /// on each side; an empty rectangle at the origin when the margins do
    /// not fit.
    pub fn inner(self, h: u16, v: u16) -> (r: Rect)
        requires
            self.wf(),
        ensures
            r.wf(),
            (self.width < 2 * h || self.height < 2 * v) ==> r == (Rect { x: 0, y: 0, width: 0, height: 0 }),
            !(self.width < 2 * h || self.height < 2 * v) ==> r == (Rect {
                x: (self.x + h) as u16,
                y: (self.y + v) as u16,
                width: (self.width - 2 * h) as u16,
                height: (self.height - 2 * v) as u16,
            }),
    {
        if (self.width as u32) < 2 * (h as u32) || (self.height as u32) < 2 * (v as u32) {
            Rect { x: 0, y: 0, width: 0, height: 0 }
        } else {
            Rect {
                x: self.x + h,
                y: self.y + v,
                width: self.width - 2 * h,
                height: self.height - 2 * v,
            }
        }
    }
}

/// Where the layout solver puts a row band of `h` rows centered in `area`.
pub uninterp spec fn centered_band_of(area: (u16, u16, u16, u16), h: u16) -> (u16, u16, u16, u16);

/// Relies on `ratatui::layout::Layout::vertical` with one `Constraint::Length`
/// and `Flex::Center`: the band that the solver picks for the area alone.
#[verifier::external_body]
fn centered_band(area: Rect, h: u16) -> (r: Rect)
    ensures
        (r.x, r.y, r.width, r.height) == centered_band_of((area.x, area.y, area.width, area.height), h),
{
    let a = ratatui::layout::Rect::new(area.x, area.y, area.width, area.height);
    let [c] = Layout::vertical([Constraint::Length(h)]).flex(Flex::Center).areas(a);
    Rect { x: c.x, y: c.y, width: c.width, height: c.height }
}

/// Where an image is drawn this frame, in terminal cells.
#[derive(Clone, Debug)]
pub struct ImagePlacement {
    pub x: u16,
    pub y: u16,
    pub width: u16,
    pub height: u16,
    pub path: String,
}

pub struct PlacementView {
    pub x: u16,
    pub y: u16,
    pub width: u16,
    pub height: u16,
    pub path: Seq<char>,
}

impl View for ImagePlacement {
    type V = PlacementView;

    open spec fn view(&self) -> PlacementView {
        PlacementView { x: self.x, y: self.y, width: self.width, height: self.height, path: self.path@ }
    }
}

pub open spec fn max(a: int, b: int) -> int {
    if a >= b {
        a
    } else {
        b
    }
}

pub open spec fn min(a: int, b: int) -> int {
    if a <= b {
        a
    } else {
        b
    }
}

/// The rows `[line_index - scroll, line_index - scroll + height)` of an
/// image's placeholder, clipped to the area's rows; `None` when nothing of
/// it is visible.
pub open spec fn placement_of(
    area: Rect,
    line_index: int,
    height: int,
    scroll: int,
    path: Seq<char>,
) -> Option<PlacementView> {
    let y_start = line_index - scroll;
    let y_end = y_start + height;
    if y_end <= 0 || y_start >= area.height {
        None
    } else {
        let h = min(y_end, area.height as int) - max(y_start, 0);
        if h == 0 {
            None
        } else {
            Some(
                PlacementView {
                    x: area.x,
                    y: (max(y_start, 0) + area.y) as u16,
                    width: area.width,
                    height: h as u16,
                    path,
                },
            )
        }
    }
}

/// Places an image's placeholder rows within a content area, accounting
/// for the scroll offset.
pub fn compute_image_placement(
    content_area: Rect,
    line_index: usize,
    height: u16,
    scroll: u16,
    path: &str,
) -> (r: Option<ImagePlacement>)
    requires
        content_area.wf(),
    ensures
        match placement_of(
            content_area,
            line_index as int,
            height as int,
            scroll as int,
            path@,
        ) {
            None => r is None,
            Some(p) => r matches Some(q) && q@ == p,
        },
{
    let y_start: i128 = line_index as i128 - scroll as i128;
    let y_end: i128 = y_start + height as i128;
    if y_end <= 0 || y_start >= content_area.height as i128 {
        return None;
    }
    let top: i128 = if y_start > 0 {
        y_start
    } else {
        0
    };
    let bottom: i128 = if y_end < content_area.height as i128 {
        y_end
    } else {
        content_area.height as i128
    };
    let h = bottom - top;
    if h == 0 {
        return None;
    }
    Some(
        ImagePlacement {
            x: content_area.x,
            y: top as u16 + content_area.y,
            width: content_area.width,
            height: h as u16,
            path: path.to_owned(),
        },
    )
}

/// The placements of a sequence of images, in order, the invisible ones
/// left out.
pub open spec fn placements_of(imgs: Seq<ImageView>, area: Rect, scroll: u16) -> Seq<PlacementView>
    decreases imgs.len(),
{
    if imgs.len() == 0 {
        Seq::empty()
    } else {
        let rest = placements_of(imgs.drop_last(), area, scroll);
        let i = imgs.last();
        match placement_of(area, i.line_index as int, i.height as int, scroll as int, i.path) {
            Some(p) => rest.push(p),
            None => rest,
        }
    }
}

pub open spec fn placements_view(v: Seq<ImagePlacement>) -> Seq<PlacementView> {
    v.map_values(|p: ImagePlacement| p@)
}

/// Places each of the images within a content area.
pub fn place_images(images: &Vec<SlideImage>, area: Rect, scroll: u16) -> (r: Vec<ImagePlacement>)
    requires
        area.wf(),
    ensures
        placements_view(r@) == placements_of(images_view(images@), area, scroll),
{
    let ghost iv = images_view(images@);
    let mut out: Vec<ImagePlacement> = Vec::new();
    let mut i: usize = 0;
    assert(placements_view(out@) =~= Seq::empty());
    assert(iv.subrange(0, 0) =~= Seq::<ImageView>::empty());
    while i < images.len()
        invariant
            i <= images@.len(),
            area.wf(),
            iv == images_view(images@),
            placements_view(out@) == placements_of(iv.subrange(0, i as int), area, scroll),
        decreases images@.len() - i,
    {
        let img = &images[i];
        let p = compute_image_placement(area, img.line_index, img.height, scroll, img.path.as_str());
        assert(iv.subrange(0, i + 1).drop_last() =~= iv.subrange(0, i as int));
        assert(iv[i as int] == img@);
        match p {
            Some(q) => {
                let ghost o = out@;
                out.push(q);
                assert(placements_view(out@) =~= placements_view(o).push(q@));
            },
            None => {},
        }
        i = i + 1;
    }
    assert(iv.subrange(0, i as int) =~= iv);
    out
}

/// The area that a slide's text is drawn in: the given area less a margin
/// of two columns and one row.
pub fn content_area(area: Rect) -> (r: Rect)
    requires
        area.wf(),
    ensures
        r == area.inner_spec(2, 1),
        r.wf(),
{
    area.inner(2, 1)
}

impl Rect {
    pub open spec fn inner_spec(self, h: u16, v: u16) -> Rect {
        if self.width < 2 * h || self.height < 2 * v {
            Rect { x: 0, y: 0, width: 0, height: 0 }
        } else {
            Rect {
                x: (self.x + h) as u16,
                y: (self.y + v) as u16,
                width: (self.width - 2 * h) as u16,
                height: (self.height - 2 * v) as u16,
            }
        }
    }
}

/// Number of rows of a slide's text, as a row count.
pub open spec fn row_count(n: nat) -> u16 {
    if n > u16::MAX {
        u16::MAX
    } else {
        n as u16
    }
}

/// The image placements of a slide drawn in `area` with the given scroll
/// offset: within the content area for the default layout, within the
/// centered band for the centered layout, none for two columns.
pub fn slide_placements(slide: &Slide, scroll: u16, area: Rect) -> (r: Vec<ImagePlacement>)
    requires
        area.wf(),
    ensures
        ({
            let ca = area.inner_spec(2, 1);
            let imgs = images_view(slide.images@);
            match slide.layout {
                SlideLayout::Default => placements_view(r@) == placements_of(imgs, ca, scroll),
                SlideLayout::Center => {
                    let b = centered_band_of(
                        (ca.x, ca.y, ca.width, ca.height),
                        row_count(slide.content@.len()),
                    );
                    let band = Rect { x: b.0, y: b.1, width: b.2, height: b.3 };
                &&& band.wf() ==> placements_view(r@) == placements_of(imgs, band, scroll)
                &&& !band.wf() ==> r@.len() == 0
                },
                SlideLayout::TwoColumn => r@.len() == 0,
            }
        }),
{
    let ca = content_area(area);
    match slide.layout {
        SlideLayout::Default => place_images(&slide.images, ca, scroll),
        SlideLayout::Center => {
            let n = slide.content.len();
            let h: u16 = if n > u16::MAX as usize {
                u16::MAX
            } else {
                n as u16
            };
            let band = centered_band(ca, h);
            if (band.x as u32) + (band.width as u32) <= u16::MAX as u32 && (band.y as u32)
                + (band.height as u32) <= u16::MAX as u32 {
                place_images(&slide.images, band, scroll)
            } else {
                Vec::new()
            }
        },
        SlideLayout::TwoColumn => Vec::new(),
    }
}

/// Whether a vertical scrollbar is shown: the text is taller than the rows
/// that show it.
pub fn needs_scrollbar(content_len: usize, visible: u16) -> (r: bool)
    ensures
        r == (content_len > visible),
{
    content_len > visible as usize
}

/// The scrollbar's range: the number of rows the text can scroll by.
pub fn scroll_range(content_len: usize, visible: u16) -> (r: usize)
    ensures
        r == if content_len > visible {
            content_len - visible
        } else {
            0
        },
{
    if content_len > visible as usize {
        content_len - visible as usize
    } else {
        0
    }
}

/// The label that the status bar shows for a layout.
pub open spec fn layout_label(l: SlideLayout) -> Seq<char> {
    match l {
        SlideLayout::Default => ""@,
        SlideLayout::Center => " [center]"@,
        SlideLayout::TwoColumn => " [two-column]"@,
    }
}

/// The status bar's text: the key help, the layout, and `[page/total]`
/// with pages counted from one.
pub open spec fn status_of(l: SlideLayout, current_page: nat, total: nat) -> Seq<char> {
    " ←/→:page  j/k:scroll  q:quit"@ + layout_label(l) + "    ["@ + decimal(current_page + 1) + "/"@
        + decimal(total) + "]"@
}

pub fn status_text(layout: SlideLayout, current_page: u64, total: u64) -> (r: String)
    requires
        current_page < u64::MAX,
    ensures
        r@ == status_of(layout, current_page as nat, total as nat),
{
    let mut v: Vec<char> = Vec::new();
    push_str(&mut v, " ←/→:page  j/k:scroll  q:quit");
    match layout {
        SlideLayout::Default => {
            proof {
                reveal_strlit("");
                assert(v@ + ""@ =~= v@);
            }
        },
        SlideLayout::Center => {
            push_str(&mut v, " [center]");
        },
        SlideLayout::TwoColumn => {
            push_str(&mut v, " [two-column]");
        },
    }
    push_str(&mut v, "    [");
    let p = decimal_text(current_page + 1);
    push_chars(&mut v, chars_of(p.as_str()).as_slice());
    push_str(&mut v, "/");
    let t = decimal_text(total);
    push_chars(&mut v, chars_of(t.as_str()).as_slice());
    push_str(&mut v, "]");
    string_of(v.as_slice())
}

} // verus!
