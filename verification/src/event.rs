//! Parse events: one step each of the structural and inline stream.
use vstd::prelude::*;
use vstd::std_specs::cmp::PartialEqSpecImpl;
use crate::native::{cow_as_str, cow_into_string, cow_text};
use crate::tag::{str_eq, tag_model, AbiTag, TagView};

verus! {

/// One parse event, with its text held in owned strings.
#[derive(Clone, Debug, PartialEq, Eq)]
pub enum AbiEvent {
    /// Opens an element; what follows, up to the matching `End`, lies
    /// inside it.
    Start(AbiTag),
    /// Closes the element that the matching `Start` opened.
    End(AbiTag),
    Text(String),
    /// Inline code.
    Code(String),
    /// Raw HTML, as it stood in the source.
    Html(String),
    /// A reference to a footnote, by its label.
    FootnoteReference(String),
    SoftBreak,
    HardBreak,
    /// A thematic break.
    Rule,
    /// A task list marker; `true` when it is checked.
    TaskListMarker(bool),
}

/// What an event says, with every string as a sequence of characters.
pub enum EventView {
    Start(TagView),
    End(TagView),
    Text(Seq<char>),
    Code(Seq<char>),
    Html(Seq<char>),
    FootnoteReference(Seq<char>),
    SoftBreak,
    HardBreak,
    Rule,
    TaskListMarker(bool),
}

impl View for AbiEvent {
    type V = EventView;

    open spec fn view(&self) -> EventView {
        match self {
            AbiEvent::Start(tag) => EventView::Start(tag@),
            AbiEvent::End(tag) => EventView::End(tag@),
            AbiEvent::Text(text) => EventView::Text(text@),
            AbiEvent::Code(code) => EventView::Code(code@),
            AbiEvent::Html(html) => EventView::Html(html@),
            AbiEvent::FootnoteReference(label) => EventView::FootnoteReference(label@),
            AbiEvent::SoftBreak => EventView::SoftBreak,
            AbiEvent::HardBreak => EventView::HardBreak,
            AbiEvent::Rule => EventView::Rule,
            AbiEvent::TaskListMarker(checked) => EventView::TaskListMarker(*checked),
        }
    }
}

/// What a parser event says.
pub open spec fn event_model(native: pulldown_cmark::Event) -> EventView {
    match native {
        pulldown_cmark::Event::Start(tag) => EventView::Start(tag_model(tag)),
        pulldown_cmark::Event::End(tag) => EventView::End(tag_model(tag)),
        pulldown_cmark::Event::Text(text) => EventView::Text(cow_text(text)),
        pulldown_cmark::Event::Code(code) => EventView::Code(cow_text(code)),
        pulldown_cmark::Event::Html(html) => EventView::Html(cow_text(html)),
        pulldown_cmark::Event::FootnoteReference(label) => EventView::FootnoteReference(
            cow_text(label),
        ),
        pulldown_cmark::Event::SoftBreak => EventView::SoftBreak,
        pulldown_cmark::Event::HardBreak => EventView::HardBreak,
        pulldown_cmark::Event::Rule => EventView::Rule,
        pulldown_cmark::Event::TaskListMarker(checked) => EventView::TaskListMarker(checked),
    }
}

impl AbiEvent {
    /// Copies a parser event into an owned event. A start or end event
    /// has its tag converted; a text-bearing event has its string copied;
    /// a task list marker keeps its state.
    pub fn from(native: pulldown_cmark::Event<'_>) -> (abi: AbiEvent)
        ensures
            abi@ == event_model(native),
    {
        match native {
            pulldown_cmark::Event::Start(tag) => AbiEvent::Start(AbiTag::from(tag)),
            pulldown_cmark::Event::End(tag) => AbiEvent::End(AbiTag::from(tag)),
            pulldown_cmark::Event::Text(text) => AbiEvent::Text(cow_into_string(text)),
            pulldown_cmark::Event::Code(code) => AbiEvent::Code(cow_into_string(code)),
            pulldown_cmark::Event::Html(html) => AbiEvent::Html(cow_into_string(html)),
            pulldown_cmark::Event::FootnoteReference(label) => AbiEvent::FootnoteReference(
                cow_into_string(label),
            ),
            pulldown_cmark::Event::SoftBreak => AbiEvent::SoftBreak,
            pulldown_cmark::Event::HardBreak => AbiEvent::HardBreak,
            pulldown_cmark::Event::Rule => AbiEvent::Rule,
            pulldown_cmark::Event::TaskListMarker(checked) => AbiEvent::TaskListMarker(checked),
        }
    }
}

/// An owned event equals a parser event exactly when both say the same:
/// the same variant with the same tag, text or marker state.
impl PartialEq<pulldown_cmark::Event<'_>> for AbiEvent {
    fn eq(&self, native: &pulldown_cmark::Event<'_>) -> (same: bool) {
        match (self, native) {
            (AbiEvent::Start(tag), pulldown_cmark::Event::Start(native_tag)) => tag == native_tag,
            (AbiEvent::End(tag), pulldown_cmark::Event::End(native_tag)) => tag == native_tag,
            (AbiEvent::Text(text), pulldown_cmark::Event::Text(native_text)) => str_eq(
                text.as_str(),
                cow_as_str(native_text),
            ),
            (AbiEvent::Code(code), pulldown_cmark::Event::Code(native_code)) => str_eq(
                code.as_str(),
                cow_as_str(native_code),
            ),
            (AbiEvent::Html(html), pulldown_cmark::Event::Html(native_html)) => str_eq(
                html.as_str(),
                cow_as_str(native_html),
            ),
            (
                AbiEvent::FootnoteReference(label),
                pulldown_cmark::Event::FootnoteReference(native_label),
            ) => str_eq(label.as_str(), cow_as_str(native_label)),
            (AbiEvent::SoftBreak, pulldown_cmark::Event::SoftBreak) => true,
            (AbiEvent::HardBreak, pulldown_cmark::Event::HardBreak) => true,
            (AbiEvent::Rule, pulldown_cmark::Event::Rule) => true,
            (
                AbiEvent::TaskListMarker(checked),
                pulldown_cmark::Event::TaskListMarker(native_checked),
            ) => *checked == *native_checked,
            _ => false,
        }
    }
}

impl PartialEqSpecImpl<pulldown_cmark::Event<'_>> for AbiEvent {
    open spec fn obeys_eq_spec() -> bool {
        true
    }

    open spec fn eq_spec(&self, native: &pulldown_cmark::Event<'_>) -> bool {
        self@ == event_model(*native)
    }
}

} // verus!
