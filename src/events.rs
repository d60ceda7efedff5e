//! Markdown structure as a flat sequence of events.
use vstd::prelude::*;
use pulldown_cmark::{Event, Options, Parser, Tag, TagEnd};

verus! {

/// One markdown structural event: the start or end of an element, or a leaf.
#[derive(Clone, Debug)]
pub enum MdEvent {
    StartParagraph,
    EndParagraph,
    /// A heading of the given level, 1 to 6.
    StartHeading(u8),
    EndHeading,
    StartEmphasis,
    EndEmphasis,
    StartStrong,
    EndStrong,
    StartStrikethrough,
    EndStrikethrough,
    StartCodeBlock,
    EndCodeBlock,
    /// A list; `Some(n)` for an ordered list whose first number is `n`.
    StartList(Option<u64>),
    EndList,
    StartItem,
    EndItem,
    StartBlockQuote,
    EndBlockQuote,
    /// An image, with its destination.
    StartImage(String),
    EndImage,
    Text(String),
    Code(String),
    /// Raw HTML, inline or as a block.
    Html(String),
    SoftBreak,
    HardBreak,
    Rule,
    /// Anything else (tables, links, footnotes, ...), which adds nothing.
    Other,
}

pub enum EventView {
    StartParagraph,
    EndParagraph,
    StartHeading(u8),
    EndHeading,
    StartEmphasis,
    EndEmphasis,
    StartStrong,
    EndStrong,
    StartStrikethrough,
    EndStrikethrough,
    StartCodeBlock,
    EndCodeBlock,
    StartList(Option<u64>),
    EndList,
    StartItem,
    EndItem,
    StartBlockQuote,
    EndBlockQuote,
    StartImage(Seq<char>),
    EndImage,
    Text(Seq<char>),
    Code(Seq<char>),
    Html(Seq<char>),
    SoftBreak,
    HardBreak,
    Rule,
    Other,
}

impl View for MdEvent {
    type V = EventView;

    open spec fn view(&self) -> EventView {
        match self {
            MdEvent::StartParagraph => EventView::StartParagraph,
            MdEvent::EndParagraph => EventView::EndParagraph,
            MdEvent::StartHeading(l) => EventView::StartHeading(*l),
            MdEvent::EndHeading => EventView::EndHeading,
            MdEvent::StartEmphasis => EventView::StartEmphasis,
            MdEvent::EndEmphasis => EventView::EndEmphasis,
            MdEvent::StartStrong => EventView::StartStrong,
            MdEvent::EndStrong => EventView::EndStrong,
            MdEvent::StartStrikethrough => EventView::StartStrikethrough,
            MdEvent::EndStrikethrough => EventView::EndStrikethrough,
            MdEvent::StartCodeBlock => EventView::StartCodeBlock,
            MdEvent::EndCodeBlock => EventView::EndCodeBlock,
            MdEvent::StartList(n) => EventView::StartList(*n),
            MdEvent::EndList => EventView::EndList,
            MdEvent::StartItem => EventView::StartItem,
            MdEvent::EndItem => EventView::EndItem,
            MdEvent::StartBlockQuote => EventView::StartBlockQuote,
            MdEvent::EndBlockQuote => EventView::EndBlockQuote,
            MdEvent::StartImage(d) => EventView::StartImage(d@),
            MdEvent::EndImage => EventView::EndImage,
            MdEvent::Text(t) => EventView::Text(t@),
            MdEvent::Code(t) => EventView::Code(t@),
            MdEvent::Html(t) => EventView::Html(t@),
            MdEvent::SoftBreak => EventView::SoftBreak,
            MdEvent::HardBreak => EventView::HardBreak,
            MdEvent::Rule => EventView::Rule,
            MdEvent::Other => EventView::Other,
        }
    }
}

pub open spec fn events_view(v: Seq<MdEvent>) -> Seq<EventView> {
    v.map_values(|e: MdEvent| e@)
}

#[verifier::external_type_specification]
#[verifier::external_body]
pub struct ExEvent<'a>(Event<'a>);

#[verifier::external_type_specification]
#[verifier::external_body]
pub struct ExTag<'a>(Tag<'a>);

#[verifier::external_type_specification]
#[verifier::external_body]
pub struct ExTagEnd(TagEnd);

/// The events that pulldown-cmark reads from a markdown text, with
/// strikethrough and tables enabled.
pub uninterp spec fn markdown_events_of(text: Seq<char>) -> Seq<EventView>;

/// Relies on `pulldown_cmark::Parser::new_ext`: a deterministic parse of the
/// text, each of its events converted one for one.
#[verifier::external_body]
pub fn markdown_events(input: &str) -> (r: Vec<MdEvent>)
    ensures
        events_view(r@) == markdown_events_of(input@),
{
    let mut options = Options::empty();
    options.insert(Options::ENABLE_STRIKETHROUGH);
    options.insert(Options::ENABLE_TABLES);
    Parser::new_ext(input, options).map(event_of).collect()
}

/// Conversion of one `pulldown_cmark::Event` for `markdown_events`.
#[verifier::external_body]
fn event_of(e: Event<'_>) -> MdEvent {
    match e {
        Event::Start(t) => start_of(t),
        Event::End(t) => end_of(t),
        Event::Text(s) => MdEvent::Text(s.into_string()),
        Event::Code(s) => MdEvent::Code(s.into_string()),
        Event::Html(s) => MdEvent::Html(s.into_string()),
        Event::InlineHtml(s) => MdEvent::Html(s.into_string()),
        Event::SoftBreak => MdEvent::SoftBreak,
        Event::HardBreak => MdEvent::HardBreak,
        Event::Rule => MdEvent::Rule,
        _ => MdEvent::Other,
    }
}

/// Conversion of a `pulldown_cmark::Tag` that opens an element, for `event_of`.
#[verifier::external_body]
fn start_of(t: Tag<'_>) -> MdEvent {
    match t {
        Tag::Paragraph => MdEvent::StartParagraph,
        Tag::Heading { level, .. } => MdEvent::StartHeading(level as u8),
        Tag::Emphasis => MdEvent::StartEmphasis,
        Tag::Strong => MdEvent::StartStrong,
        Tag::Strikethrough => MdEvent::StartStrikethrough,
        Tag::CodeBlock(_) => MdEvent::StartCodeBlock,
        Tag::List(n) => MdEvent::StartList(n),
        Tag::Item => MdEvent::StartItem,
        Tag::BlockQuote(_) => MdEvent::StartBlockQuote,
        Tag::Image { dest_url, .. } => MdEvent::StartImage(dest_url.into_string()),
        _ => MdEvent::Other,
    }
}

/// Conversion of a `pulldown_cmark::TagEnd`, for `event_of`.
#[verifier::external_body]
fn end_of(t: TagEnd) -> MdEvent {
    match t {
        TagEnd::Paragraph => MdEvent::EndParagraph,
        TagEnd::Heading(_) => MdEvent::EndHeading,
        TagEnd::Emphasis => MdEvent::EndEmphasis,
        TagEnd::Strong => MdEvent::EndStrong,
        TagEnd::Strikethrough => MdEvent::EndStrikethrough,
        TagEnd::CodeBlock => MdEvent::EndCodeBlock,
        TagEnd::List(_) => MdEvent::EndList,
        TagEnd::Item => MdEvent::EndItem,
        TagEnd::BlockQuote(_) => MdEvent::EndBlockQuote,
        TagEnd::Image => MdEvent::EndImage,
        _ => MdEvent::Other,
    }
}

} // verus!
