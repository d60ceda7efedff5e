use ratride::frontmatter::{SlideLayout, TransitionKind};
use ratride::layout::{
    compute_image_placement, content_area, needs_scrollbar, scroll_range, slide_placements,
    status_text, Rect,
};
use ratride::presenter::{action_for_key, Action, KeyInput, Presenter};
use ratride::query::{backend_from_query, theme_from_query, WebBackend};
use ratride::slides::{Slide, SlideImage};
use ratride::style::{blend_color, Color, Line, Style};
use ratride::theme::{theme_from_markdown, theme_from_name, Theme};
use ratride::transition::{
    hue_to_rgb, render_transition, transition_duration_ms, Cell, Grid, TransitionState,
};

fn area(h: u16) -> Rect {
    Rect { x: 2, y: 1, width: 40, height: h }
}

#[test]
fn image_placement_clipped_to_visible_rows() {
    // Rows [20 - 10, 20 - 10 + 15) = [10, 25) meet the visible rows [0, 12) in [10, 12).
    let p = compute_image_placement(area(12), 20, 15, 10, "a.png").unwrap();
    assert_eq!((p.x, p.y, p.width, p.height), (2, 1 + 10, 40, 2));
    assert_eq!(p.path, "a.png");
    // Scrolled so that the placeholder starts above the view: clipped at row 0.
    let p = compute_image_placement(area(12), 20, 15, 26, "a.png").unwrap();
    assert_eq!((p.y, p.height), (1, 9));
    // Fully scrolled past.
    assert!(compute_image_placement(area(12), 20, 15, 40, "a.png").is_none());
    // Below the view.
    assert!(compute_image_placement(area(12), 30, 15, 0, "a.png").is_none());
}

fn slide_with_image(layout: SlideLayout, rows: usize) -> Slide {
    let content = (0..rows).map(|_| Line { spans: Vec::new(), style: Style::plain() }).collect();
    Slide {
        layout,
        content,
        right_content: None,
        images: vec![SlideImage {
            path: "p.png".to_string(),
            line_index: 2,
            height: 15,
            pixel_width: 0,
            pixel_height: 0,
            max_width_percent: None,
        }],
        transition: TransitionKind::SlideIn,
    }
}

#[test]
fn slide_placements_by_layout() {
    let full = Rect { x: 0, y: 0, width: 80, height: 24 };
    let ca = content_area(full);
    assert_eq!(ca, Rect { x: 2, y: 1, width: 76, height: 22 });
    let ps = slide_placements(&slide_with_image(SlideLayout::Default, 20), 0, full);
    assert_eq!(ps.len(), 1);
    assert_eq!((ps[0].x, ps[0].y, ps[0].width, ps[0].height), (2, 3, 76, 15));
    let ps = slide_placements(&slide_with_image(SlideLayout::TwoColumn, 20), 0, full);
    assert!(ps.is_empty());
    // Centered: the 20 rows of text sit in rows 2..22 of the 22-row content area.
    let ps = slide_placements(&slide_with_image(SlideLayout::Center, 20), 0, full);
    assert_eq!(ps.len(), 1);
    assert_eq!((ps[0].y, ps[0].height), (1 + 1 + 2, 15));
    assert_eq!(Rect { x: 0, y: 0, width: 3, height: 3 }.inner(2, 1), Rect { x: 0, y: 0, width: 0, height: 0 });
}

#[test]
fn scrollbar_and_status() {
    assert!(needs_scrollbar(30, 20));
    assert!(!needs_scrollbar(20, 20));
    assert_eq!(scroll_range(30, 20), 10);
    assert_eq!(scroll_range(5, 20), 0);
    assert_eq!(status_text(SlideLayout::Center, 0, 3), " ←/→:page  j/k:scroll  q:quit [center]    [1/3]");
    assert_eq!(status_text(SlideLayout::Default, 9, 12), " ←/→:page  j/k:scroll  q:quit    [10/12]");
}

#[test]
fn blend_endpoints_and_non_rgb() {
    let a = Color::Rgb(10, 20, 30);
    let b = Color::Rgb(210, 120, 0);
    assert_eq!(blend_color(a, b, 0), a);
    assert_eq!(blend_color(a, b, 1000), b);
    assert_eq!(blend_color(a, b, 500), Color::Rgb(110, 70, 15));
    assert_eq!(blend_color(Color::Reset, b, 300), b);
    assert_eq!(blend_color(a, Color::Indexed(4), 0), Color::Indexed(4));
    assert_eq!(blend_color(Color::Reset, b, 5000), b);
}

#[test]
fn hue_sweep_colors() {
    assert_eq!(hue_to_rgb(0), Color::Rgb(255, 0, 0));
    assert_eq!(hue_to_rgb(120), Color::Rgb(0, 255, 0));
    assert_eq!(hue_to_rgb(240), Color::Rgb(0, 0, 255));
    assert_eq!(hue_to_rgb(30), Color::Rgb(255, 127, 0));
    assert_eq!(hue_to_rgb(300), Color::Rgb(255, 0, 255));
    assert_eq!(hue_to_rgb(360), Color::Rgb(255, 0, 0));
}

fn grid(w: u16, h: u16, c: char, fg: Color) -> Grid {
    Grid { width: w, height: h, cells: vec![Cell { symbol: c, fg, bg: Color::Reset }; (w * h) as usize] }
}

#[test]
fn transition_durations() {
    assert_eq!(transition_duration_ms(TransitionKind::Lines, 24), 500 + 50 * 23);
    assert_eq!(transition_duration_ms(TransitionKind::LinesCross, 1), 500);
    assert_eq!(transition_duration_ms(TransitionKind::SlideRgb, 24), 800);
    assert_eq!(transition_duration_ms(TransitionKind::Fade, 24), 600);
    assert_eq!(transition_duration_ms(TransitionKind::Instant, 24), 0);
}

#[test]
fn finished_transition_leaves_target() {
    let new = grid(10, 4, 'n', Color::Rgb(1, 2, 3));
    let old = grid(10, 4, 'o', Color::Rgb(200, 200, 200));
    let bg = Color::Rgb(0, 0, 0);
    for kind in [TransitionKind::Lines, TransitionKind::LinesCross, TransitionKind::SlideRgb] {
        let mut st = TransitionState::start(kind, 4);
        assert!(!st.is_done());
        st.advance(st.duration_ms);
        assert!(st.is_done());
        assert_eq!(st.alpha_permille(), 1000);
        let f = st.frame(&new, Some(&old), bg);
        assert_eq!(f.cells, new.cells);
    }
}

#[test]
fn transition_midway_shows_old_frame() {
    let new = grid(10, 2, 'n', Color::Rgb(1, 2, 3));
    let old = grid(10, 2, 'o', Color::Rgb(200, 200, 200));
    let bg = Color::Rgb(0, 0, 0);
    // Lines at 0 ms: every row fully shifted; column 0 is the reveal edge.
    let f = render_transition(TransitionKind::Lines, &new, Some(&old), 0, bg);
    assert_eq!(f.cells[0], Cell { symbol: ' ', fg: Color::Reset, bg: Color::Reset });
    assert_eq!(f.cells[5].symbol, 'o');
    // Two columns past the edge of a ten-column row: 40% of the way to the old color.
    assert_eq!(f.cells[2].fg, Color::Rgb(80, 80, 80));
    assert_eq!(f.cells[9].fg, Color::Rgb(200, 200, 200));
    // SlideRgb at 0 ms: nothing revealed yet.
    let f = render_transition(TransitionKind::SlideRgb, &new, Some(&old), 0, bg);
    assert!(f.cells.iter().all(|c| c.symbol == 'o'));
    // SlideRgb at 400 ms: edge at column 11, the band over the new cells.
    let f = render_transition(TransitionKind::SlideRgb, &new, Some(&old), 400, bg);
    assert_eq!(f.cells[0].symbol, 'n');
    assert_eq!(f.cells[0].fg, hue_to_rgb(275));
    assert_eq!(f.cells[9].fg, hue_to_rgb(50));
}

#[test]
fn theme_lookup() {
    assert_eq!(theme_from_name("mocha"), Some(Theme::catppuccin_mocha()));
    assert_eq!(theme_from_name("  Catppuccin-LATTE "), Some(Theme::catppuccin_latte()));
    assert_eq!(theme_from_name("frappe"), Some(Theme::catppuccin_frappe()));
    assert_eq!(theme_from_name("MACCHIATO"), Some(Theme::catppuccin_macchiato()));
    assert_eq!(theme_from_name("solarized"), None);
    assert_eq!(Theme::default(), Theme::catppuccin_mocha());
    assert_eq!(theme_from_markdown("---\ntheme: Latte\n---\n# x\n"), Some(Theme::catppuccin_latte()));
    assert_eq!(theme_from_markdown("# x\n"), None);
}

#[test]
fn keys_and_pages() {
    assert_eq!(action_for_key(KeyInput::Char('q')), Action::Quit);
    assert_eq!(action_for_key(KeyInput::Char(' ')), Action::NextPage);
    assert_eq!(action_for_key(KeyInput::Left), Action::PrevPage);
    assert_eq!(action_for_key(KeyInput::Char('d')), Action::ScrollDown(10));
    assert_eq!(action_for_key(KeyInput::Up), Action::ScrollUp(1));
    assert_eq!(action_for_key(KeyInput::Char('z')), Action::Ignore);

    let mut p = Presenter::new(vec![TransitionKind::Fade, TransitionKind::Lines], 24);
    assert_eq!(p.effect.unwrap().kind, TransitionKind::Fade);
    p.tick(600);
    assert!(p.effect.is_none());
    p.handle_key(KeyInput::Char('u'), 24);
    assert_eq!(p.scroll_offset(), 0);
    p.handle_key(KeyInput::Char('d'), 24);
    p.handle_key(KeyInput::Down, 24);
    assert_eq!(p.scroll_offset(), 11);
    p.handle_key(KeyInput::Right, 24);
    assert_eq!(p.current_page, 1);
    assert_eq!(p.scroll_offset(), 0);
    assert_eq!(p.effect.unwrap().kind, TransitionKind::Lines);
    p.handle_key(KeyInput::Right, 24);
    assert_eq!(p.current_page, 1);
    p.handle_key(KeyInput::Char('h'), 24);
    assert_eq!(p.current_page, 0);
    assert_eq!(p.scroll_offset(), 11);
    p.handle_key(KeyInput::Esc, 24);
    assert!(p.quit);

    let empty = Presenter::new(Vec::new(), 24);
    assert!(empty.effect.is_none());
    assert_eq!(empty.total_pages(), 0);
    assert_eq!(empty.scroll_offset(), 0);
}

#[test]
fn query_string_settings() {
    assert_eq!(theme_from_query("https://x.io/deck?theme=latte&backend=canvas").as_deref(), Some("latte"));
    assert_eq!(theme_from_query("https://x.io/deck?backend=canvas"), None);
    assert_eq!(theme_from_query("https://x.io/deck"), None);
    assert_eq!(backend_from_query("https://x.io/?theme=latte&backend=webgl2"), WebBackend::WebGl2);
    assert_eq!(backend_from_query("https://x.io/?backend=canvas"), WebBackend::Canvas);
    assert_eq!(backend_from_query("https://x.io/?backend=svg"), WebBackend::Dom);
    assert_eq!(backend_from_query("https://x.io/"), WebBackend::Dom);
}
