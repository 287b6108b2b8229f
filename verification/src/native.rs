//! The parser's own types, as far as the marshalling layer touches them.
//!
//! The enumerations are declared with their variants, so that the
//! conversions are proved arm by arm. The copy-on-write string and the
//! option bit set keep their representation to themselves; what they hold
//! is known here only through `cow_text` and `option_bits`.
use vstd::prelude::*;
use vstd::utf8::encode_utf8;
use crate::event::{event_model, EventView};
use crate::options::Flag;

verus! {

#[verifier::external_type_specification]
pub struct ExLinkType(pulldown_cmark::LinkType);

#[verifier::external_type_specification]
pub struct ExAlignment(pulldown_cmark::Alignment);

#[verifier::external_type_specification]
pub struct ExHeadingLevel(pulldown_cmark::HeadingLevel);

#[verifier::external_type_specification]
#[verifier::external_body]
pub struct ExCowStr<'a>(pulldown_cmark::CowStr<'a>);

#[verifier::external_type_specification]
pub struct ExCodeBlockKind<'a>(pulldown_cmark::CodeBlockKind<'a>);

#[verifier::external_type_specification]
pub struct ExTag<'a>(pulldown_cmark::Tag<'a>);

#[verifier::external_type_specification]
pub struct ExEvent<'a>(pulldown_cmark::Event<'a>);

#[verifier::external_type_specification]
#[verifier::external_body]
pub struct ExOptions(pulldown_cmark::Options);

/// The characters that a parser string holds, whichever of its three
/// representations (boxed, borrowed, inlined) it is in.
pub uninterp spec fn cow_text(s: pulldown_cmark::CowStr) -> Seq<char>;

/// `CowStr::into_string`: the owned copy holds the characters of the
/// parser string.
#[verifier::external_body]
pub(crate) fn cow_into_string(s: pulldown_cmark::CowStr<'_>) -> (r: String)
    ensures
        r@ == cow_text(s),
{
    s.into_string()
}

/// `CowStr`'s `Deref`: the slice borrowed from a parser string holds its
/// characters.
#[verifier::external_body]
pub(crate) fn cow_as_str<'b>(s: &'b pulldown_cmark::CowStr<'_>) -> (r: &'b str)
    ensures
        r@ == cow_text(*s),
{
    std::ops::Deref::deref(s)
}

/// The positions of the bits that are set in a parser option value. The
/// lowest bit has position 0.
pub uninterp spec fn option_bits(options: pulldown_cmark::Options) -> Set<nat>;

/// `Options::empty`: no bit is set.
#[verifier::external_body]
pub(crate) fn options_empty() -> (options: pulldown_cmark::Options)
    ensures
        option_bits(options) == Set::<nat>::empty(),
{
    pulldown_cmark::Options::empty()
}

/// The six constants `Options::ENABLE_..`: each has one bit set, the one
/// at the position that its feature is declared with.
#[verifier::external_body]
pub(crate) fn options_flag(flag: Flag) -> (options: pulldown_cmark::Options)
    ensures
        option_bits(options) == set![flag.bit()],
{
    match flag {
        Flag::Tables => pulldown_cmark::Options::ENABLE_TABLES,
        Flag::Footnotes => pulldown_cmark::Options::ENABLE_FOOTNOTES,
        Flag::Strikethrough => pulldown_cmark::Options::ENABLE_STRIKETHROUGH,
        Flag::Tasklists => pulldown_cmark::Options::ENABLE_TASKLISTS,
        Flag::SmartPunctuation => pulldown_cmark::Options::ENABLE_SMART_PUNCTUATION,
        Flag::HeadingAttributes => pulldown_cmark::Options::ENABLE_HEADING_ATTRIBUTES,
    }
}

/// `Options::contains`: true exactly when every bit set in `other` is set
/// in `options` too.
#[verifier::external_body]
pub(crate) fn options_contains(
    options: &pulldown_cmark::Options,
    other: pulldown_cmark::Options,
) -> (all: bool)
    ensures
        all == option_bits(other).subset_of(option_bits(*options)),
{
    options.contains(other)
}

/// `Options::insert`: afterwards the bits of `other` are set besides
/// those that were set before.
#[verifier::external_body]
pub(crate) fn options_insert(options: &mut pulldown_cmark::Options, other: pulldown_cmark::Options)
    ensures
        option_bits(*final(options)) == option_bits(*old(options)).union(option_bits(other)),
{
    options.insert(other)
}

#[verifier::external_type_specification]
#[verifier::external_body]
pub struct ExIoError(std::io::Error);

/// What `escape::escape_href` writes for a text: the text with every byte
/// that is unsafe in a link destination replaced by its escape.
pub uninterp spec fn href_escaped(text: Seq<char>) -> Seq<char>;

/// What `escape::escape_html` writes for a text: the text with the bytes
/// that are special in HTML replaced by their escapes.
pub uninterp spec fn html_escaped(text: Seq<char>) -> Seq<char>;

/// The HTML that `html::push_html` writes for the events of a text parsed
/// with no optional feature switched on.
pub uninterp spec fn rendered_html(text: Seq<char>) -> Seq<char>;

/// The events that the parser yields for a text, in document order, each
/// with the bounds of its byte range in the text. `enabled` holds the bit
/// positions that are set in the options.
pub uninterp spec fn parsed_events(text: Seq<char>, enabled: Set<nat>) -> Seq<
    (EventView, int, int),
>;

/// The number of bytes that a text takes: what `str::len` gives for it.
pub open spec fn byte_len(text: Seq<char>) -> usize {
    encode_utf8(text).len() as usize
}

/// What a sequence of parser events with their ranges says: each event's
/// content with the two bounds of its range, in the same order.
pub open spec fn native_items_view(
    items: Seq<(pulldown_cmark::Event, std::ops::Range<usize>)>,
) -> Seq<(EventView, int, int)> {
    Seq::new(
        items.len(),
        |i: int| (event_model(items[i].0), items[i].1.start as int, items[i].1.end as int),
    )
}

/// `escape::escape_href` with a string as its sink. The escaped text is
/// appended to the buffer. The call succeeds: appending to a string does
/// not fail, and the function fails only where its sink does.
#[verifier::external_body]
pub(crate) fn escape_href_into(
    buffer: &mut String,
    text: &str,
) -> (written: Result<(), std::io::Error>)
    ensures
        written is Ok,
        final(buffer)@ == old(buffer)@ + href_escaped(text@),
{
    pulldown_cmark::escape::escape_href(buffer, text)
}

/// `escape::escape_html` with a string as its sink. The escaped text is
/// appended to the buffer. The call succeeds: appending to a string does
/// not fail, and the function fails only where its sink does.
#[verifier::external_body]
pub(crate) fn escape_html_into(
    buffer: &mut String,
    text: &str,
) -> (written: Result<(), std::io::Error>)
    ensures
        written is Ok,
        final(buffer)@ == old(buffer)@ + html_escaped(text@),
{
    pulldown_cmark::escape::escape_html(buffer, text)
}

/// `Parser::new` handed to `html::push_html`: the HTML for the text is
/// appended to the buffer.
#[verifier::external_body]
pub(crate) fn push_rendered(buffer: &mut String, text: &str)
    ensures
        final(buffer)@ == old(buffer)@ + rendered_html(text@),
{
    pulldown_cmark::html::push_html(buffer, pulldown_cmark::Parser::new(text))
}

/// `Parser::new_ext` turned into its offset iterator by
/// `Parser::into_offset_iter` and run to the end. The events come in
/// document order. The library documents each range as the event's range
/// in the source string, and its iterator asserts that no range ends
/// before it starts: so each range is taken to lie within the text.
#[verifier::external_body]
pub(crate) fn parse_offsets<'a>(
    text: &'a str,
    options: pulldown_cmark::Options,
) -> (items: Vec<(pulldown_cmark::Event<'a>, std::ops::Range<usize>)>)
    ensures
        native_items_view(items@) == parsed_events(text@, option_bits(options)),
        forall|i: int|
            0 <= i < items.len() ==> (#[trigger] items[i]).1.start <= items[i].1.end <= byte_len(
                text@,
            ),
{
    pulldown_cmark::Parser::new_ext(text, options).into_offset_iter().collect()
}

} // verus!
