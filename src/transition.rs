//! Time-driven transitions between the previous frame and the new one.
use vstd::prelude::*;
use crate::frontmatter::TransitionKind;
use crate::style::{blend_color, blend_spec, Color};

verus! {

/// How long each row of a line-by-line transition takes, in milliseconds.
pub const LINE_DURATION_MS: u64 = 500;

/// Delay between the starts of two successive rows, in milliseconds.
pub const LINE_STAGGER_MS: u64 = 50;

/// Duration of the RGB sweep, in milliseconds.
pub const SLIDE_RGB_MS: u64 = 800;

/// Width of the RGB band behind the sweep's edge, in columns.
pub const BAND_WIDTH: u64 = 12;

/// One cell of a rendered frame.
#[derive(Clone, Copy, Debug, PartialEq, Eq, Structural)]
pub struct Cell {
    pub symbol: char,
    pub fg: Color,
    pub bg: Color,
}

pub open spec fn reset_cell() -> Cell {
    Cell { symbol: ' ', fg: Color::Reset, bg: Color::Reset }
}

/// A rendered frame: `height` rows of `width` cells, row after row.
#[derive(Clone, Debug)]
pub struct Grid {
    pub width: u16,
    pub height: u16,
    pub cells: Vec<Cell>,
}

impl Grid {
    pub open spec fn wf(&self) -> bool {
        self.cells@.len() == self.width as int * self.height as int
    }

    pub open spec fn at(&self, x: int, y: int) -> Cell {
        self.cells@[y * self.width + x]
    }

    /// The cell at column `x`, row `y`, if the grid has one there.
    pub open spec fn get(&self, x: int, y: int) -> Option<Cell> {
        if 0 <= x < self.width && 0 <= y < self.height && self.wf() {
            Some(self.at(x, y))
        } else {
            None
        }
    }
}

/// The full-saturation color of a hue, in degrees.
pub open spec fn hue_spec(hue: int) -> Color {
    let h = hue % 360;
    let i = h / 60;
    let r = h % 60;
    let q = (255 * (60 - r) / 60) as u8;
    let t = (255 * r / 60) as u8;
    if i == 0 {
        Color::Rgb(255, t, 0)
    } else if i == 1 {
        Color::Rgb(q, 255, 0)
    } else if i == 2 {
        Color::Rgb(0, 255, t)
    } else if i == 3 {
        Color::Rgb(0, q, 255)
    } else if i == 4 {
        Color::Rgb(t, 0, 255)
    } else {
        Color::Rgb(255, 0, q)
    }
}

/// Converts a hue in degrees to an RGB color at full saturation and value.
pub fn hue_to_rgb(hue: u32) -> (r: Color)
    ensures
        r == hue_spec(hue as int),
{
    let h = hue % 360;
    let i = h / 60;
    let rem = h % 60;
    let q = (255 * (60 - rem) / 60) as u8;
    let t = (255 * rem / 60) as u8;
    if i == 0 {
        Color::Rgb(255, t, 0)
    } else if i == 1 {
        Color::Rgb(q, 255, 0)
    } else if i == 2 {
        Color::Rgb(0, 255, t)
    } else if i == 3 {
        Color::Rgb(0, q, 255)
    } else if i == 4 {
        Color::Rgb(t, 0, 255)
    } else {
        Color::Rgb(255, 0, q)
    }
}

/// Whether the library itself draws this kind of transition cell by cell.
pub open spec fn is_grid_kind(k: TransitionKind) -> bool {
    k == TransitionKind::Lines || k == TransitionKind::LinesCross || k == TransitionKind::LinesRgb
        || k == TransitionKind::SlideRgb
}

pub open spec fn clamp(v: int, lo: int, hi: int) -> int {
    if v < lo {
        lo
    } else if v > hi {
        hi
    } else {
        v
    }
}

/// How long a transition lasts, in milliseconds, on a frame of `rows` rows.
pub open spec fn duration_spec(kind: TransitionKind, rows: u16) -> int {
    match kind {
        TransitionKind::Instant => 0,
        TransitionKind::SlideIn => 400,
        TransitionKind::Fade => 600,
        TransitionKind::Dissolve => 500,
        TransitionKind::Coalesce => 500,
        TransitionKind::SweepIn => 600,
        TransitionKind::SlideRgb => SLIDE_RGB_MS as int,
        _ => LINE_DURATION_MS + LINE_STAGGER_MS * clamp(rows - 1, 0, u16::MAX as int),
    }
}

pub fn transition_duration_ms(kind: TransitionKind, rows: u16) -> (r: u64)
    ensures
        r == duration_spec(kind, rows),
{
    match kind {
        TransitionKind::Instant => 0,
        TransitionKind::SlideIn => 400,
        TransitionKind::Fade => 600,
        TransitionKind::Dissolve => 500,
        TransitionKind::Coalesce => 500,
        TransitionKind::SweepIn => 600,
        TransitionKind::SlideRgb => SLIDE_RGB_MS,
        _ => {
            let extra: u64 = if rows > 0 {
                (rows - 1) as u64
            } else {
                0
            };
            LINE_DURATION_MS + LINE_STAGGER_MS * extra
        },
    }
}

/// Milliseconds into row `y`'s own animation.
pub open spec fn row_progress(y: int, elapsed: int) -> int {
    clamp(elapsed - y * LINE_STAGGER_MS, 0, LINE_DURATION_MS as int)
}

/// A cell of the old frame faded toward the background, `d` columns past
/// the reveal edge; at the edge itself, an empty cell.
pub open spec fn faded_old(
    target: Cell,
    old: Option<Cell>,
    d: int,
    width: int,
    bg: Color,
) -> Cell {
    if d <= 0 {
        reset_cell()
    } else {
        let fade = clamp(d * 2000 / width, 0, 1000);
        match old {
            Some(o) => Cell { symbol: o.symbol, fg: blend_spec(bg, o.fg, fade), bg: blend_spec(bg, o.bg, fade) },
            None => target,
        }
    }
}

/// `Lines`: each row slides in from the right, rows starting one after
/// another; the uncovered part shows the old frame fading out.
pub open spec fn lines_cell(target: Grid, prev: Option<Grid>, x: int, y: int, elapsed: int, bg: Color) -> Cell {
    let w = target.width as int;
    let shift = (LINE_DURATION_MS - row_progress(y, elapsed)) * w / LINE_DURATION_MS as int;
    let src = x + shift;
    if src < w {
        target.at(src, y)
    } else {
        faded_old(target.at(x, y), old_cell(prev, x, y), src - w, w, bg)
    }
}

/// `LinesCross`: like `Lines`, but odd rows are revealed from the right.
pub open spec fn lines_cross_cell(target: Grid, prev: Option<Grid>, x: int, y: int, elapsed: int, bg: Color) -> Cell {
    let w = target.width as int;
    let visible = row_progress(y, elapsed) * w / LINE_DURATION_MS as int;
    let odd = y % 2 == 1;
    let hidden = if odd {
        x < w - visible
    } else {
        x >= visible
    };
    if hidden {
        let d = if odd {
            w - visible - 1 - x
        } else {
            x - visible
        };
        faded_old(target.at(x, y), old_cell(prev, x, y), d, w, bg)
    } else {
        target.at(x, y)
    }
}

/// `SlideRgb`: a vertical edge sweeps to the right; behind it a band of
/// hues, beyond it the old frame.
pub open spec fn slide_rgb_cell(target: Grid, prev: Option<Grid>, x: int, y: int, elapsed: int) -> Cell {
    let w = target.width as int;
    let edge = clamp(elapsed, 0, SLIDE_RGB_MS as int) * (w + BAND_WIDTH) / SLIDE_RGB_MS as int;
    if x >= edge {
        match old_cell(prev, x, y) {
            Some(o) => o,
            None => target.at(x, y),
        }
    } else if x + BAND_WIDTH >= edge {
        let d = edge - x;
        Cell { fg: hue_spec(d * 300 / BAND_WIDTH as int), ..target.at(x, y) }
    } else {
        target.at(x, y)
    }
}

pub open spec fn old_cell(prev: Option<Grid>, x: int, y: int) -> Option<Cell> {
    match prev {
        Some(p) => p.get(x, y),
        None => None,
    }
}

/// The cell at `(x, y)` of the transition's frame `elapsed` milliseconds in;
/// kinds that are not drawn cell by cell leave the new frame as it is.
pub open spec fn transition_cell(
    kind: TransitionKind,
    target: Grid,
    prev: Option<Grid>,
    x: int,
    y: int,
    elapsed: int,
    bg: Color,
) -> Cell {
    if kind == TransitionKind::SlideRgb {
        slide_rgb_cell(target, prev, x, y, elapsed)
    } else if kind == TransitionKind::LinesCross {
        lines_cross_cell(target, prev, x, y, elapsed, bg)
    } else if kind == TransitionKind::Lines || kind == TransitionKind::LinesRgb {
        lines_cell(target, prev, x, y, elapsed, bg)
    } else {
        target.at(x, y)
    }
}

fn cell_at(g: &Grid, x: u16, y: u16) -> (r: Cell)
    requires
        g.wf(),
        x < g.width,
        y < g.height,
    ensures
        r == g.at(x as int, y as int),
{
    proof {
        assert((y as int) * (g.width as int) + (x as int) < (g.width as int) * (g.height as int)) by (nonlinear_arith)
            requires
                x < g.width,
                y < g.height,
        ;
    }
    assert((y as u64) * (g.width as u64) <= 65535 * 65535) by (nonlinear_arith)
        requires
            y <= 65535,
            g.width <= 65535,
    ;
    let idx: u64 = y as u64 * g.width as u64 + x as u64;
    assert(idx < g.cells@.len());
    g.cells[idx as usize]
}

fn old_cell_of(prev: Option<&Grid>, x: u16, y: u16) -> (r: Option<Cell>)
    ensures
        r == old_cell(
            match prev {
                Some(p) => Some(*p),
                None => None,
            },
            x as int,
            y as int,
        ),
{
    match prev {
        Some(p) => {
            assert((p.width as u64) * (p.height as u64) <= 65535 * 65535) by (nonlinear_arith)
                requires
                    p.width <= 65535,
                    p.height <= 65535,
            ;
            if x < p.width && y < p.height && p.cells.len() as u64 == p.width as u64 * p.height as u64 {
                Some(cell_at(p, x, y))
            } else {
                None
            }
        },
        None => None,
    }
}

fn row_progress_of(y: u16, elapsed: u64) -> (r: u64)
    ensures
        r == row_progress(y as int, elapsed as int),
{
    let start = y as u64 * LINE_STAGGER_MS;
    if elapsed <= start {
        0
    } else if elapsed - start > LINE_DURATION_MS {
        LINE_DURATION_MS
    } else {
        elapsed - start
    }
}

fn faded_old_of(target: Cell, old: Option<Cell>, d: u64, width: u16, bg: Color) -> (r: Cell)
    requires
        width > 0,
        d <= 2 * width,
    ensures
        r == faded_old(target, old, d as int, width as int, bg),
{
    if d == 0 {
        return Cell { symbol: ' ', fg: Color::Reset, bg: Color::Reset };
    }
    let f = d * 2000 / width as u64;
    let fade: u32 = if f > 1000 {
        1000
    } else {
        f as u32
    };
    match old {
        Some(o) => Cell { symbol: o.symbol, fg: blend_color(bg, o.fg, fade), bg: blend_color(bg, o.bg, fade) },
        None => target,
    }
}

fn transition_cell_of(
    kind: TransitionKind,
    target: &Grid,
    prev: Option<&Grid>,
    x: u16,
    y: u16,
    elapsed: u64,
    bg: Color,
) -> (r: Cell)
    requires
        target.wf(),
        x < target.width,
        y < target.height,
    ensures
        r == transition_cell(
            kind,
            *target,
            match prev {
                Some(p) => Some(*p),
                None => None,
            },
            x as int,
            y as int,
            elapsed as int,
            bg,
        ),
{
    let w = target.width as u64;
    let xx = x as u64;
    if kind == TransitionKind::SlideRgb {
        let e = if elapsed > SLIDE_RGB_MS {
            SLIDE_RGB_MS
        } else {
            elapsed
        };
        assert(e * (w + BAND_WIDTH) <= 800 * (65535 + 12)) by (nonlinear_arith)
            requires
                e <= 800,
                w <= 65535,
        ;
        let edge = e * (w + BAND_WIDTH) / SLIDE_RGB_MS;
        if xx >= edge {
            match old_cell_of(prev, x, y) {
                Some(o) => o,
                None => cell_at(target, x, y),
            }
        } else if xx + BAND_WIDTH >= edge {
            let d = edge - xx;
            let c = cell_at(target, x, y);
            Cell { fg: hue_to_rgb((d * 300 / BAND_WIDTH) as u32), ..c }
        } else {
            cell_at(target, x, y)
        }
    } else if kind == TransitionKind::LinesCross {
        let p = row_progress_of(y, elapsed);
        assert(p * w <= 500 * 65535) by (nonlinear_arith)
            requires
                p <= 500,
                w <= 65535,
        ;
        let visible = p * w / LINE_DURATION_MS;
        assert(visible <= w) by (nonlinear_arith)
            requires
                p <= 500,
                visible == p * w / 500,
        ;
        let odd = y % 2 == 1;
        let hidden = if odd {
            xx < w - visible
        } else {
            xx >= visible
        };
        if hidden {
            let d = if odd {
                w - visible - 1 - xx
            } else {
                xx - visible
            };
            faded_old_of(cell_at(target, x, y), old_cell_of(prev, x, y), d, target.width, bg)
        } else {
            cell_at(target, x, y)
        }
    } else if kind == TransitionKind::Lines || kind == TransitionKind::LinesRgb {
        let p = row_progress_of(y, elapsed);
        assert((500 - p) * w <= 500 * 65535) by (nonlinear_arith)
            requires
                p <= 500,
                w <= 65535,
        ;
        let shift = (LINE_DURATION_MS - p) * w / LINE_DURATION_MS;
        assert(shift <= w) by (nonlinear_arith)
            requires
                p <= 500,
                shift == (500 - p) * w / 500,
        ;
        let src = xx + shift;
        if src < w {
            cell_at(target, src as u16, y)
        } else {
            faded_old_of(cell_at(target, x, y), old_cell_of(prev, x, y), src - w, target.width, bg)
        }
    } else {
        cell_at(target, x, y)
    }
}

/// The frame of a cell-by-cell transition `elapsed` milliseconds in: each
/// cell as `transition_cell` gives it.
pub fn render_transition(
    kind: TransitionKind,
    target: &Grid,
    prev: Option<&Grid>,
    elapsed: u64,
    bg: Color,
) -> (r: Grid)
    requires
        target.wf(),
    ensures
        r.wf(),
        r.width == target.width,
        r.height == target.height,
        forall|x: int, y: int|
            0 <= x < r.width && 0 <= y < r.height ==> #[trigger] r.at(x, y) == transition_cell(
                kind,
                *target,
                match prev {
                    Some(p) => Some(*p),
                    None => None,
                },
                x,
                y,
                elapsed as int,
                bg,
            ),
{
    let ghost pv = match prev {
        Some(p) => Some(*p),
        None => None,
    };
    let w = target.width;
    let h = target.height;
    let n: usize = target.cells.len();
    let mut cells: Vec<Cell> = Vec::new();
    let mut i: usize = 0;
    while i < n
        invariant
            i <= n,
            pv == match prev {
                Some(p) => Some(*p),
                None => None,
            },
            n == target.cells@.len(),
            n == w as int * h as int,
            w == target.width,
            h == target.height,
            target.wf(),
            cells@.len() == i,
            forall|k: int|
                0 <= k < i ==> #[trigger] cells@[k] == transition_cell(
                    kind,
                    *target,
                    pv,
                    k % w as int,
                    k / w as int,
                    elapsed as int,
                    bg,
                ),
        decreases n - i,
    {
        proof {
            assert(w > 0 && (i as int) % (w as int) < w && (i as int) / (w as int) < h) by (nonlinear_arith)
                requires
                    i < n,
                    n == w as int * h as int,
            ;
        }
        let x = (i % w as usize) as u16;
        let y = (i / w as usize) as u16;
        assert(x as int == (i as int) % (w as int));
        assert(y as int == (i as int) / (w as int));
        let c = transition_cell_of(kind, target, prev, x, y, elapsed, bg);
        assert(c == transition_cell(kind, *target, pv, x as int, y as int, elapsed as int, bg));
        let ghost before = cells@;
        cells.push(c);
        assert forall|k: int| 0 <= k < i + 1 implies #[trigger] cells@[k] == transition_cell(
            kind,
            *target,
            pv,
            k % w as int,
            k / w as int,
            elapsed as int,
            bg,
        ) by {
            if k < i {
                assert(cells@[k] == before[k]);
            }
        }
        i = i + 1;
    }
    let r = Grid { width: w, height: h, cells };
    assert forall|x: int, y: int| 0 <= x < r.width && 0 <= y < r.height implies #[trigger] r.at(
        x,
        y,
    ) == transition_cell(kind, *target, pv, x, y, elapsed as int, bg) by {
        let k = y * w as int + x;
        assert(0 <= k < w as int * h as int && k % w as int == x && k / w as int == y) by (nonlinear_arith)
            requires
                k == y * w as int + x,
                0 <= x < w,
                0 <= y < h,
        ;
    }
    r
}

/// A transition that has begun: its kind, its duration, and the time that
/// has passed since the slide changed.
#[derive(Clone, Copy, Debug, PartialEq, Eq, Structural)]
pub struct TransitionState {
    pub kind: TransitionKind,
    pub duration_ms: u64,
    pub elapsed_ms: u64,
}

impl TransitionState {
    /// A transition of `kind` starting now on a frame of `rows` rows.
    pub fn start(kind: TransitionKind, rows: u16) -> (r: TransitionState)
        ensures
            r.kind == kind,
            r.duration_ms == duration_spec(kind, rows),
            r.elapsed_ms == 0,
    {
        TransitionState { kind, duration_ms: transition_duration_ms(kind, rows), elapsed_ms: 0 }
    }

    /// Lets `delta_ms` milliseconds pass (the clock stops at `u64::MAX`).
    pub fn advance(&mut self, delta_ms: u64)
        ensures
            final(self).kind == old(self).kind,
            final(self).duration_ms == old(self).duration_ms,
            final(self).elapsed_ms == if old(self).elapsed_ms + delta_ms > u64::MAX {
                u64::MAX as int
            } else {
                old(self).elapsed_ms + delta_ms
            },
    {
        self.elapsed_ms = if self.elapsed_ms > u64::MAX - delta_ms {
            u64::MAX
        } else {
            self.elapsed_ms + delta_ms
        };
    }

    /// Whether the transition has run its whole duration.
    pub fn is_done(&self) -> (r: bool)
        ensures
            r == (self.elapsed_ms >= self.duration_ms),
    {
        self.elapsed_ms >= self.duration_ms
    }

    /// Progress in thousandths: `elapsed / duration`, clamped to 1000.
    pub fn alpha_permille(&self) -> (r: u64)
        ensures
            r == if self.elapsed_ms >= self.duration_ms {
                1000
            } else {
                self.elapsed_ms as int * 1000 / self.duration_ms as int
            },
            r <= 1000,
    {
        if self.elapsed_ms >= self.duration_ms {
            1000
        } else {
            assert(self.elapsed_ms as int * 1000 / self.duration_ms as int <= 1000) by (nonlinear_arith)
                requires
                    self.elapsed_ms < self.duration_ms,
            ;
            ((self.elapsed_ms as u128 * 1000) / self.duration_ms as u128) as u64
        }
    }

    /// The frame to show for a cell-by-cell kind: the transformed frame while
    /// the transition runs, the new frame itself once it is done.
    pub fn frame(&self, target: &Grid, prev: Option<&Grid>, bg: Color) -> (r: Grid)
        requires
            target.wf(),
        ensures
            r.wf(),
            r.width == target.width,
            r.height == target.height,
            forall|x: int, y: int|
                0 <= x < r.width && 0 <= y < r.height ==> #[trigger] r.at(x, y) == transition_cell(
                    self.kind,
                    *target,
                    match prev {
                        Some(p) => Some(*p),
                        None => None,
                    },
                    x,
                    y,
                    self.elapsed_ms as int,
                    bg,
                ),
    {
        render_transition(self.kind, target, prev, self.elapsed_ms, bg)
    }
}

/// Once a transition has run its duration, every cell is the new frame's
/// own cell: no trace of the old frame or of blending is left.
pub proof fn lemma_transition_settles(
    kind: TransitionKind,
    target: Grid,
    prev: Option<Grid>,
    x: int,
    y: int,
    elapsed: int,
    bg: Color,
)
    requires
        target.wf(),
        0 <= x < target.width,
        0 <= y < target.height,
        elapsed >= duration_spec(kind, target.height),
    ensures
        transition_cell(kind, target, prev, x, y, elapsed, bg) == target.at(x, y),
{
    let w = target.width as int;
    if kind == TransitionKind::SlideRgb {
        assert(800 * (w + 12) / 800 == w + 12) by (nonlinear_arith);
    } else if is_grid_kind(kind) {
        assert(row_progress(y, elapsed) == 500);
        if kind == TransitionKind::LinesCross {
            assert(500 * w / 500 == w) by (nonlinear_arith);
        } else {
            assert(0 * w / 500 == 0) by (nonlinear_arith);
        }
    }
}

/// A transition that `is_done` reports complete shows exactly the new frame:
/// its duration fits the frame's height and has elapsed.
pub proof fn lemma_finished_frame(st: TransitionState, target: Grid, prev: Option<Grid>, bg: Color)
    requires
        target.wf(),
        st.duration_ms == duration_spec(st.kind, target.height),
        st.elapsed_ms >= st.duration_ms,
    ensures
        forall|x: int, y: int|
            0 <= x < target.width && 0 <= y < target.height ==> #[trigger] transition_cell(
                st.kind,
                target,
                prev,
                x,
                y,
                st.elapsed_ms as int,
                bg,
            ) == target.at(x, y),
{
    assert forall|x: int, y: int| 0 <= x < target.width && 0 <= y < target.height implies #[trigger] transition_cell(
        st.kind,
        target,
        prev,
        x,
        y,
        st.elapsed_ms as int,
        bg,
    ) == target.at(x, y) by {
        lemma_transition_settles(st.kind, target, prev, x, y, st.elapsed_ms as int, bg);
    }
}

} // verus!
