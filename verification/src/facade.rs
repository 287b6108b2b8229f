//! The operations offered across the boundary: escaping, rendering and
//! parsing to owned events.
use vstd::prelude::*;
use vstd::std_specs::cmp::PartialEqSpec;
use crate::error::Error;
use crate::event::{event_model, AbiEvent, EventView};
use crate::native::{
    byte_len, escape_href_into, escape_html_into, href_escaped, html_escaped, native_items_view,
    options_empty, parse_offsets, parsed_events, push_rendered, rendered_html,
};
use crate::options::AbiOptions;
use crate::range::{narrowed, range_fits, Range};

verus! {

/// One event with the byte range of the source that it comes from.
pub type OffsetItem = (AbiEvent, Range);

/// An owned item says what a native item says: the event has the same
/// content and the range has the same bounds.
pub open spec fn item_agrees(
    abi: OffsetItem,
    native: (pulldown_cmark::Event, std::ops::Range<usize>),
) -> bool {
    &&& abi.0@ == event_model(native.0)
    &&& abi.1.start == native.1.start
    &&& abi.1.end == native.1.end
}

/// What a sequence of owned items says: each event's content with the two
/// bounds of its range, in the same order.
pub open spec fn items_view(items: Seq<OffsetItem>) -> Seq<(EventView, int, int)> {
    Seq::new(items.len(), |i: int| (items[i].0@, items[i].1.start as int, items[i].1.end as int))
}

/// An item converted from a native item equals it: where the event has
/// the native event's content and the range is the native range narrowed,
/// `==` between the owned and the native event holds, and so does `==`
/// between the two ranges.
pub proof fn lemma_converted_item_agrees(
    abi: OffsetItem,
    native: (pulldown_cmark::Event, std::ops::Range<usize>),
)
    requires
        abi.0@ == event_model(native.0),
        range_fits(native.1),
        abi.1 == narrowed(native.1),
    ensures
        abi.0.eq_spec(&native.0),
        abi.1.eq_spec(&native.1),
        item_agrees(abi, native),
{
}

/// Whether an owned item says what a native item says.
pub fn item_eq(
    abi: &OffsetItem,
    native: &(pulldown_cmark::Event<'_>, std::ops::Range<usize>),
) -> (same: bool)
    ensures
        same == item_agrees(*abi, *native),
{
    abi.0 == native.0 && abi.1 == native.1
}

/// Converts the parser's items one by one. The result has as many items
/// as the parser gave, in the same order, and each says what the native
/// item at its position says.
pub fn marshal_items(
    native: Vec<(pulldown_cmark::Event<'_>, std::ops::Range<usize>)>,
) -> (abi: Vec<OffsetItem>)
    requires
        forall|i: int| 0 <= i < native.len() ==> range_fits((#[trigger] native[i]).1),
    ensures
        abi.len() == native.len(),
        forall|i: int| 0 <= i < abi.len() ==> item_agrees(#[trigger] abi[i], native[i]),
        items_view(abi@) == native_items_view(native@),
{
    let ghost source = native@;
    let mut abi: Vec<OffsetItem> = Vec::new();
    for item in iter: native.into_iter()
        invariant
            iter.seq() == source,
            abi.len() == iter.index(),
            forall|k: int| 0 <= k < abi.len() ==> item_agrees(#[trigger] abi[k], source[k]),
            forall|k: int| 0 <= k < source.len() ==> range_fits((#[trigger] source[k]).1),
    {
        let (event, range) = item;
        abi.push((AbiEvent::from(event), Range::from(range)));
    }
    assert(items_view(abi@) =~= native_items_view(source));
    abi
}

/// The boundary itself: its operations take and give owned values only.
pub struct Pulldown;

impl Pulldown {
    /// Escapes a text for use as a link destination. The escaping is the
    /// parser library's; nothing is added to it here.
    pub fn escape_href(s: String) -> (escaped: Result<String, Error>)
        ensures
            escaped is Ok,
            escaped->Ok_0@ == href_escaped(s@),
    {
        let mut temp = String::new();
        match escape_href_into(&mut temp, s.as_str()) {
            Ok(_) => {
                assert(temp@ =~= href_escaped(s@));
                Ok(temp)
            },
            Err(failure) => Err(Error::from(failure)),
        }
    }

    /// Escapes a text for use in HTML. The escaping is the parser
    /// library's; nothing is added to it here.
    pub fn escape_html(s: String) -> (escaped: Result<String, Error>)
        ensures
            escaped is Ok,
            escaped->Ok_0@ == html_escaped(s@),
    {
        let mut temp = String::new();
        match escape_html_into(&mut temp, s.as_str()) {
            Ok(_) => {
                assert(temp@ =~= html_escaped(s@));
                Ok(temp)
            },
            Err(failure) => Err(Error::from(failure)),
        }
    }

    /// Renders a markdown text as HTML, with no optional feature switched
    /// on. The result is what the parser library renders, unchanged.
    pub fn markdown_to_html(markdown_string: String) -> (html: String)
        ensures
            html@ == rendered_html(markdown_string@),
    {
        let mut html_buf = String::new();
        push_rendered(&mut html_buf, markdown_string.as_str());
        assert(html_buf@ =~= rendered_html(markdown_string@));
        html_buf
    }

    /// Parses a markdown text with no optional feature switched on. The
    /// result holds every event of the document with its range, in
    /// document order.
    pub fn parse(markdown: String) -> (items: Vec<OffsetItem>)
        requires
            byte_len(markdown@) <= u32::MAX,
        ensures
            items_view(items@) == parsed_events(markdown@, Set::<nat>::empty()),
            forall|i: int|
                0 <= i < items.len() ==> (#[trigger] items[i]).1.start <= items[i].1.end
                    <= byte_len(markdown@),
    {
        let native = parse_offsets(markdown.as_str(), options_empty());
        marshal_items(native)
    }

    /// Parses a markdown text with the given features switched on. The
    /// result holds every event of the document with its range, in
    /// document order.
    pub fn parse_with_options(markdown: String, options: AbiOptions) -> (items: Vec<OffsetItem>)
        requires
            byte_len(markdown@) <= u32::MAX,
        ensures
            items_view(items@) == parsed_events(markdown@, options.native_bits()),
            forall|i: int|
                0 <= i < items.len() ==> (#[trigger] items[i]).1.start <= items[i].1.end
                    <= byte_len(markdown@),
    {
        let native = parse_offsets(markdown.as_str(), options.into());
        marshal_items(native)
    }
}

} // verus!
