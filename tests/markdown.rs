use ratride::columns::split_two_column;
use ratride::compiler::{banner_requests, parse_slides};
use ratride::directive::{parse_comment, parse_layout_comment, CommentDirective};
use ratride::frontmatter::{parse_frontmatter, Frontmatter, SlideLayout, TransitionKind};
use ratride::slides::Slide;
use ratride::style::{Line, Span, Style};
use ratride::theme::Theme;

fn parse(md: &str) -> Vec<Slide> {
    let fm = Frontmatter::default();
    parse_slides(md, &Theme::default(), &fm, Vec::new())
}

fn text_of(l: &Line) -> String {
    l.spans.iter().map(|s| s.content.as_str()).collect()
}

/// (text, has_bg) for each line of a slide.
fn line_info(slide: &Slide) -> Vec<(String, bool)> {
    slide
        .content
        .iter()
        .map(|l| {
            let has_bg = l.style.bg.is_some() || l.spans.iter().any(|s| s.style.bg.is_some());
            (text_of(l), has_bg)
        })
        .collect()
}

fn texts(lines: &[Line]) -> Vec<String> {
    lines.iter().map(text_of).collect()
}

#[test]
fn single_code_block() {
    let md = "```\nhello\n```\n";
    let slides = parse(md);
    assert_eq!(slides.len(), 1);
    let info = line_info(&slides[0]);
    assert!(info.len() >= 2, "got {} lines: {:?}", info.len(), info);
    assert!(info[0].1, "first line should have bg");
    assert!(info[1].0.contains("hello"), "content line: {:?}", info[1]);
    assert!(info[1].1, "content should have bg");
}

#[test]
fn consecutive_code_blocks_have_gap() {
    let md = "```\nfirst\n```\n\n```\nsecond\n```\n";
    let slides = parse(md);
    assert_eq!(slides.len(), 1);
    let info = line_info(&slides[0]);
    let first_idx = info.iter().position(|(t, _)| t.contains("first")).unwrap();
    let second_idx = info.iter().position(|(t, _)| t.contains("second")).unwrap();
    let between = &info[first_idx + 1..second_idx];
    let has_blank = between.iter().any(|(_, bg)| !bg);
    assert!(has_blank, "expected a blank (non-bg) gap between code blocks, got: {:?}", between);
}

#[test]
fn consecutive_code_blocks_no_stale_spans() {
    let md = "```\naaa\n```\n\n```\nbbb\n```\n";
    let slides = parse(md);
    let info = line_info(&slides[0]);
    for (text, has_bg) in &info {
        if text.trim().is_empty() && *has_bg {
            assert!(text.is_empty(), "found stale whitespace-only bg line: {:?}", text);
        }
    }
}

#[test]
fn code_block_after_paragraph_no_double_blank() {
    let md = "some text\n\n```\ncode\n```\n";
    let slides = parse(md);
    let info = line_info(&slides[0]);
    assert!(info.iter().any(|(t, _)| t.contains("some text")));
    assert!(info.iter().any(|(t, _)| t.contains("code")));
    for w in info.windows(2) {
        let both_blank =
            w[0].0.trim().is_empty() && !w[0].1 && w[1].0.trim().is_empty() && !w[1].1;
        assert!(!both_blank, "found double blank gap: {:?}", info);
    }
}

#[test]
fn code_block_at_slide_end_has_bottom_padding() {
    let md = "# Title\n\n```\ncode\n```\n";
    let slides = parse(md);
    assert_eq!(slides.len(), 1);
    let info = line_info(&slides[0]);
    let code_idx = info.iter().position(|(t, _)| t.contains("code")).unwrap();
    assert!(info.len() > code_idx + 1, "missing bottom padding after code block at slide end: {:?}", info);
    assert!(info[code_idx + 1].1, "bottom padding should have bg: {:?}", info);
}

#[test]
fn three_consecutive_code_blocks() {
    let md = "```\na\n```\n\n```\nb\n```\n\n```\nc\n```\n";
    let slides = parse(md);
    assert_eq!(slides.len(), 1);
    let info = line_info(&slides[0]);
    let a_idx = info.iter().position(|(t, _)| t.contains("a")).unwrap();
    let b_idx = info.iter().position(|(t, _)| t.contains("b")).unwrap();
    let c_idx = info.iter().position(|(t, _)| t.contains("c")).unwrap();
    let gap1 = &info[a_idx + 1..b_idx];
    assert!(gap1.iter().any(|(_, bg)| !bg), "expected gap between block 1 and 2: {:?}", gap1);
    let gap2 = &info[b_idx + 1..c_idx];
    assert!(gap2.iter().any(|(_, bg)| !bg), "expected gap between block 2 and 3: {:?}", gap2);
}

#[test]
fn rules_split_slides_in_order() {
    let slides = parse("one\n\n---\n\ntwo\n\n---\n\nthree\n");
    assert_eq!(slides.len(), 3);
    assert_eq!(texts(&slides[0].content), vec!["one"]);
    assert_eq!(texts(&slides[1].content), vec!["two"]);
    assert_eq!(texts(&slides[2].content), vec!["three"]);
}

#[test]
fn blank_segments_give_no_slide() {
    let slides = parse("a\n\n---\n\n---\n\nb\n");
    assert_eq!(slides.len(), 2);
    assert!(parse("").is_empty());
    assert!(parse("   \n\n").is_empty());
    for s in &slides {
        let last = s.content.last().unwrap();
        assert!(!(last.spans.is_empty() && last.style.bg.is_none()));
    }
}

#[test]
fn nested_ordered_lists_count_per_level() {
    let md = "3. a\n   1. x\n   2. y\n4. b\n";
    let slides = parse(md);
    let t = texts(&slides[0].content);
    // A tight item's text and its first nested item share a row.
    assert_eq!(t, vec!["3. a  1. x", "  2. y", "", "4. b"]);
}

#[test]
fn unordered_list_bullets() {
    let slides = parse("- a\n- b\n");
    assert_eq!(texts(&slides[0].content), vec!["• a", "• b"]);
    assert_eq!(slides[0].content[0].spans[0].style.fg, Some(Theme::default().list_bullet));
}

#[test]
fn two_column_split_at_marker() {
    let plain = |s: &str| Line {
        spans: vec![Span { content: s.to_string(), style: Style::plain() }],
        style: Style::plain(),
    };
    let lines = vec![plain("A"), plain("B"), plain("|||"), plain("C"), plain("D")];
    let slide = split_two_column(lines);
    assert_eq!(slide.layout, SlideLayout::TwoColumn);
    assert_eq!(texts(&slide.content), vec!["A", "B"]);
    assert_eq!(texts(slide.right_content.as_ref().unwrap()), vec!["C", "D"]);

    let lines = vec![plain("A"), plain("B"), plain("C")];
    let slide = split_two_column(lines);
    assert_eq!(texts(&slide.content), vec!["A", "B", "C"]);
    assert!(slide.right_content.is_none());
}

#[test]
fn two_column_document() {
    let md = "<!-- layout: two-column -->\n\nleft\n\n|||\n\nright\n";
    let slides = parse(md);
    assert_eq!(slides.len(), 1);
    assert_eq!(slides[0].layout, SlideLayout::TwoColumn);
    assert_eq!(texts(&slides[0].content), vec!["left"]);
    assert_eq!(texts(slides[0].right_content.as_ref().unwrap()), vec!["right"]);
}

#[test]
fn directive_precedence() {
    let md = "---\ntransition: fade\n---\n<!-- transition: dissolve -->\n\nfirst\n\n---\n\nsecond\n";
    let (fm, body) = parse_frontmatter(md);
    assert_eq!(fm.transition, Some(TransitionKind::Fade));
    let slides = parse_slides(body, &Theme::default(), &fm, Vec::new());
    assert_eq!(slides.len(), 2);
    assert_eq!(slides[0].transition, TransitionKind::Dissolve);
    assert_eq!(slides[1].transition, TransitionKind::Fade);
    let md = "---\nlayout: center\ntransition: fade\n---\n<!-- layout: grid -->\n<!-- transition: wobble -->\n\nonly\n";
    let (fm, body) = parse_frontmatter(md);
    let slides = parse_slides(body, &Theme::default(), &fm, Vec::new());
    assert_eq!(slides[0].layout, SlideLayout::Center);
    assert_eq!(slides[0].transition, TransitionKind::Fade);
    let slides = parse("x\n");
    assert_eq!(slides[0].transition, TransitionKind::SlideIn);
    assert_eq!(slides[0].layout, SlideLayout::Default);
}

#[test]
fn frontmatter_fields() {
    let md = "---\ntheme: latte\nlayout: center\nimage_max_width: 60%\nfiglet: slant\n# note\n---\nbody\n";
    let (fm, body) = parse_frontmatter(md);
    assert_eq!(fm.theme.as_deref(), Some("latte"));
    assert_eq!(fm.layout, Some(SlideLayout::Center));
    assert_eq!(fm.image_max_width, Some(60));
    assert_eq!(fm.figlet, Some(Some("slant".to_string())));
    assert_eq!(body, "body\n");
    let (fm, body) = parse_frontmatter("no block\n");
    assert!(fm.theme.is_none() && fm.layout.is_none());
    assert_eq!(body, "no block\n");
    let (fm, _) = parse_frontmatter("---\nfiglet: true\nlayout: other\n---\n");
    assert_eq!(fm.figlet, Some(None));
    assert_eq!(fm.layout, Some(SlideLayout::Default));
    let (fm, body) = parse_frontmatter("---\ntheme: x\n");
    assert!(fm.theme.is_none());
    assert_eq!(body, "---\ntheme: x\n");
}

#[test]
fn comment_directives() {
    match parse_comment("<!-- layout: center -->") {
        Some(CommentDirective::Layout(SlideLayout::Center)) => {}
        other => panic!("unexpected {:?}", other),
    }
    match parse_comment("  <!--transition: sweep-in-->\n") {
        Some(CommentDirective::Transition(TransitionKind::SweepIn)) => {}
        other => panic!("unexpected {:?}", other),
    }
    match parse_comment("<!-- figlet -->") {
        Some(CommentDirective::Figlet(None)) => {}
        other => panic!("unexpected {:?}", other),
    }
    match parse_comment("<!-- figlet: slant -->") {
        Some(CommentDirective::Figlet(Some(f))) => assert_eq!(f, "slant"),
        other => panic!("unexpected {:?}", other),
    }
    match parse_comment("<!-- image_max_width: 40% -->") {
        Some(CommentDirective::ImageMaxWidth(40)) => {}
        other => panic!("unexpected {:?}", other),
    }
    assert!(parse_comment("<!-- image_max_width: wide -->").is_none());
    assert!(parse_comment("<!-- hello -->").is_none());
    assert!(parse_comment("<!-- layout: grid -->").is_none());
    assert!(parse_comment("<!-- transition: wobble -->").is_none());
    assert!(parse_comment("<b>").is_none());
    assert_eq!(parse_layout_comment("<!-- layout: default -->"), Some(SlideLayout::Default));
    assert_eq!(parse_layout_comment("<!-- layout: odd -->"), None);
}

#[test]
fn headings_and_inline_styles() {
    let slides = parse("## Title\n\nsome *it* **bold** `code`\n");
    let t = texts(&slides[0].content);
    assert_eq!(t, vec!["# Title", "", "some it bold  code "]);
    let theme = Theme::default();
    let heading = &slides[0].content[0];
    assert_eq!(heading.spans[0].style.fg, Some(theme.h2));
    assert!(heading.spans[0].style.bold);
    let para = &slides[0].content[2];
    assert!(para.spans[1].style.italic);
    assert!(para.spans[3].style.bold);
    assert_eq!(para.spans[5].style.bg, Some(theme.surface));
}

#[test]
fn centered_headings_have_no_marker() {
    let slides = parse("<!-- layout: center -->\n# Title\n");
    assert_eq!(slides[0].layout, SlideLayout::Center);
    assert_eq!(texts(&slides[0].content), vec!["Title"]);
}

#[test]
fn block_quote_prefix() {
    let slides = parse("> quoted\n");
    assert_eq!(texts(&slides[0].content), vec!["│ quoted"]);
}

#[test]
fn image_reserves_placeholder_rows() {
    let md = "<!-- image_max_width: 50% -->\n\nintro\n\n![alt](pic.png)\n\nafter\n";
    let slides = parse(md);
    let s = &slides[0];
    assert_eq!(s.images.len(), 1);
    assert_eq!(s.images[0].path, "pic.png");
    assert_eq!(s.images[0].height, 15);
    assert_eq!(s.images[0].max_width_percent, Some(50));
    let idx = s.images[0].line_index;
    assert_eq!(text_of(&s.content[idx - 2]), "intro");
    for k in idx..idx + 15 {
        assert!(s.content[k].spans.is_empty());
    }
    assert!(s.content.iter().any(|l| text_of(l) == "after"));
    assert!(s.content.iter().all(|l| !text_of(l).contains("alt")));
}

#[test]
fn banner_headings_use_supplied_art() {
    let md = "<!-- figlet: big -->\n# Hi\n\ntext\n";
    let fm = Frontmatter::default();
    let theme = Theme::default();
    let reqs = banner_requests(md, &theme, &fm);
    assert_eq!(reqs.len(), 1);
    assert_eq!(reqs[0].text, "Hi");
    assert_eq!(reqs[0].font.as_deref(), Some("big"));
    let art = Some("H I\n---\n   \n\n".to_string());
    let slides = parse_slides(md, &theme, &fm, vec![art]);
    assert_eq!(texts(&slides[0].content), vec!["H I", "---", "", "text"]);
    assert!(!slides[0].content[0].spans[0].style.underlined);
    let slides = parse_slides(md, &theme, &fm, vec![None]);
    assert_eq!(texts(&slides[0].content), vec!["Hi", "", "text"]);
}

#[test]
fn two_column_marker_only_gives_empty_columns() {
    let slides = parse("<!-- layout: two-column -->\n\n|||\n");
    assert_eq!(slides.len(), 1);
    assert!(slides[0].content.is_empty());
    assert!(slides[0].right_content.as_ref().unwrap().is_empty());
}
