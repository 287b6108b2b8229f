//! Structural tags: the markup elements that a start event opens and the
//! matching end event closes.
use vstd::prelude::*;
use vstd::std_specs::cmp::PartialEqSpecImpl;
use crate::native::{cow_as_str, cow_into_string, cow_text};
use crate::scalar::{
    alignment_model, heading_level_model, link_type_model, AbiAlignment, AbiHeadingLevel,
    AbiLinkType,
};

verus! {

/// Whether a code block is indented or fenced; a fenced block carries its
/// info string, which may be empty.
#[derive(Clone, Debug, PartialEq, Eq)]
pub enum AbiCodeBlockKind {
    Indented,
    Fenced(String),
}

/// What a code block kind says, with its info string as characters.
pub enum CodeBlockKindView {
    Indented,
    Fenced(Seq<char>),
}

impl View for AbiCodeBlockKind {
    type V = CodeBlockKindView;

    open spec fn view(&self) -> CodeBlockKindView {
        match self {
            AbiCodeBlockKind::Indented => CodeBlockKindView::Indented,
            AbiCodeBlockKind::Fenced(info) => CodeBlockKindView::Fenced(info@),
        }
    }
}

/// What a parser code block kind says.
pub open spec fn code_block_kind_model(native: pulldown_cmark::CodeBlockKind) -> CodeBlockKindView {
    match native {
        pulldown_cmark::CodeBlockKind::Indented => CodeBlockKindView::Indented,
        pulldown_cmark::CodeBlockKind::Fenced(info) => CodeBlockKindView::Fenced(cow_text(info)),
    }
}

impl AbiCodeBlockKind {
    /// Copies a parser code block kind, info string included, into an
    /// owned value.
    pub fn from(native: pulldown_cmark::CodeBlockKind<'_>) -> (abi: AbiCodeBlockKind)
        ensures
            abi@ == code_block_kind_model(native),
    {
        match native {
            pulldown_cmark::CodeBlockKind::Indented => AbiCodeBlockKind::Indented,
            pulldown_cmark::CodeBlockKind::Fenced(info) => AbiCodeBlockKind::Fenced(
                cow_into_string(info),
            ),
        }
    }
}

/// An owned code block kind equals a parser code block kind exactly when
/// both say the same: both indented, or both fenced with the same info
/// string.
impl PartialEq<pulldown_cmark::CodeBlockKind<'_>> for AbiCodeBlockKind {
    fn eq(&self, native: &pulldown_cmark::CodeBlockKind<'_>) -> (same: bool) {
        match (self, native) {
            (AbiCodeBlockKind::Fenced(left), pulldown_cmark::CodeBlockKind::Fenced(right)) => {
                str_eq(left.as_str(), cow_as_str(right))
            },
            (AbiCodeBlockKind::Indented, pulldown_cmark::CodeBlockKind::Indented) => true,
            _ => false,
        }
    }
}

impl PartialEqSpecImpl<pulldown_cmark::CodeBlockKind<'_>> for AbiCodeBlockKind {
    open spec fn obeys_eq_spec() -> bool {
        true
    }

    open spec fn eq_spec(&self, native: &pulldown_cmark::CodeBlockKind<'_>) -> bool {
        self@ == code_block_kind_model(*native)
    }
}

/// Whether two string slices hold the same characters.
pub fn str_eq(left: &str, right: &str) -> (same: bool)
    ensures
        same == (left@ == right@),
{
    left.to_owned() == right.to_owned()
}

/// The characters of each string of a sequence, in order.
pub open spec fn strings_view(strings: Seq<String>) -> Seq<Seq<char>> {
    Seq::new(strings.len(), |i: int| strings[i]@)
}

/// The characters of each borrowed slice of a sequence, in order.
pub open spec fn strs_view(slices: Seq<&str>) -> Seq<Seq<char>> {
    Seq::new(slices.len(), |i: int| slices[i]@)
}

/// The owned alignments that stand for a sequence of parser alignments,
/// column by column.
pub open spec fn alignments_model(native: Seq<pulldown_cmark::Alignment>) -> Seq<AbiAlignment> {
    Seq::new(native.len(), |i: int| alignment_model(native[i]))
}

/// The characters of an optional string.
pub open spec fn optional_string_view(text: Option<String>) -> Option<Seq<char>> {
    match text {
        Some(s) => Some(s@),
        None => None,
    }
}

/// The characters of an optional borrowed slice.
pub open spec fn optional_str_view(text: Option<&str>) -> Option<Seq<char>> {
    match text {
        Some(s) => Some(s@),
        None => None,
    }
}

/// Copies every borrowed class name into a string of its own, keeping the
/// order in which they were declared.
pub fn copy_strs(slices: &Vec<&str>) -> (owned: Vec<String>)
    ensures
        strings_view(owned@) == strs_view(slices@),
{
    let mut owned: Vec<String> = Vec::new();
    let mut i: usize = 0;
    while i < slices.len()
        invariant
            i <= slices.len(),
            owned.len() == i,
            forall|k: int| 0 <= k < i ==> owned[k]@ == slices[k]@,
        decreases slices.len() - i,
    {
        owned.push(slices[i].to_owned());
        i += 1;
    }
    assert(strings_view(owned@) =~= strs_view(slices@));
    owned
}

/// Whether the owned strings hold, one by one and in the same order, the
/// characters of the borrowed slices.
pub fn strs_eq(owned: &Vec<String>, slices: &Vec<&str>) -> (same: bool)
    ensures
        same == (strings_view(owned@) == strs_view(slices@)),
{
    if owned.len() != slices.len() {
        assert(strings_view(owned@).len() != strs_view(slices@).len());
        return false;
    }
    let mut i: usize = 0;
    while i < owned.len()
        invariant
            i <= owned.len(),
            owned.len() == slices.len(),
            forall|k: int| 0 <= k < i ==> owned[k]@ == slices[k]@,
        decreases owned.len() - i,
    {
        if !str_eq(owned[i].as_str(), slices[i]) {
            assert(strings_view(owned@)[i as int] != strs_view(slices@)[i as int]);
            return false;
        }
        i += 1;
    }
    assert(strings_view(owned@) =~= strs_view(slices@));
    true
}

/// Converts the alignments of a table's columns, keeping the columns'
/// order.
pub fn copy_alignments(native: &Vec<pulldown_cmark::Alignment>) -> (abi: Vec<AbiAlignment>)
    ensures
        abi@ == alignments_model(native@),
{
    let mut abi: Vec<AbiAlignment> = Vec::new();
    let mut i: usize = 0;
    while i < native.len()
        invariant
            i <= native.len(),
            abi.len() == i,
            forall|k: int| 0 <= k < i ==> abi[k] == alignment_model(native[k]),
        decreases native.len() - i,
    {
        abi.push(AbiAlignment::from(native[i]));
        i += 1;
    }
    assert(abi@ =~= alignments_model(native@));
    abi
}

/// Whether the owned alignments stand, column by column, for the parser's.
pub fn alignments_eq(
    abi: &Vec<AbiAlignment>,
    native: &Vec<pulldown_cmark::Alignment>,
) -> (same: bool)
    ensures
        same == (abi@ == alignments_model(native@)),
{
    if abi.len() != native.len() {
        assert(abi@.len() != alignments_model(native@).len());
        return false;
    }
    let mut i: usize = 0;
    while i < abi.len()
        invariant
            i <= abi.len(),
            abi.len() == native.len(),
            forall|k: int| 0 <= k < i ==> abi[k] == alignment_model(native[k]),
        decreases abi.len() - i,
    {
        if abi[i] != native[i] {
            assert(abi@[i as int] != alignments_model(native@)[i as int]);
            return false;
        }
        i += 1;
    }
    assert(abi@ =~= alignments_model(native@));
    true
}

/// A structural markup element, with everything it carries held in owned
/// strings and vectors.
#[derive(Clone, Debug, PartialEq, Eq)]
pub enum AbiTag {
    Paragraph,
    /// The level, the fragment identifier if there is one, and the class
    /// names in the order of their declaration.
    Heading(AbiHeadingLevel, Option<String>, Vec<String>),
    BlockQuote,
    CodeBlock(AbiCodeBlockKind),
    /// An ordered list carries the number of its first item; an unordered
    /// list carries nothing.
    ListTag(Option<u64>),
    Item,
    /// The label by which the footnote is referred to.
    FootnoteDefinition(String),
    /// One alignment for each column.
    Table(Vec<AbiAlignment>),
    TableHead,
    TableRow,
    TableCell,
    Emphasis,
    Strong,
    StrikeThrough,
    /// The link type, the destination and the title.
    Link(AbiLinkType, String, String),
    /// The link type, the source and the title.
    Image(AbiLinkType, String, String),
}

/// What a tag says: its variant and payload, with every string as a
/// sequence of characters.
pub enum TagView {
    Paragraph,
    Heading(AbiHeadingLevel, Option<Seq<char>>, Seq<Seq<char>>),
    BlockQuote,
    CodeBlock(CodeBlockKindView),
    List(Option<u64>),
    Item,
    FootnoteDefinition(Seq<char>),
    Table(Seq<AbiAlignment>),
    TableHead,
    TableRow,
    TableCell,
    Emphasis,
    Strong,
    Strikethrough,
    Link(AbiLinkType, Seq<char>, Seq<char>),
    Image(AbiLinkType, Seq<char>, Seq<char>),
}

impl View for AbiTag {
    type V = TagView;

    open spec fn view(&self) -> TagView {
        match self {
            AbiTag::Paragraph => TagView::Paragraph,
            AbiTag::Heading(level, fragment, classes) => TagView::Heading(
                *level,
                optional_string_view(*fragment),
                strings_view(classes@),
            ),
            AbiTag::BlockQuote => TagView::BlockQuote,
            AbiTag::CodeBlock(kind) => TagView::CodeBlock(kind@),
            AbiTag::ListTag(first) => TagView::List(*first),
            AbiTag::Item => TagView::Item,
            AbiTag::FootnoteDefinition(label) => TagView::FootnoteDefinition(label@),
            AbiTag::Table(alignments) => TagView::Table(alignments@),
            AbiTag::TableHead => TagView::TableHead,
            AbiTag::TableRow => TagView::TableRow,
            AbiTag::TableCell => TagView::TableCell,
            AbiTag::Emphasis => TagView::Emphasis,
            AbiTag::Strong => TagView::Strong,
            AbiTag::StrikeThrough => TagView::Strikethrough,
            AbiTag::Link(link_type, destination, title) => TagView::Link(
                *link_type,
                destination@,
                title@,
            ),
            AbiTag::Image(link_type, source, title) => TagView::Image(*link_type, source@, title@),
        }
    }
}

/// What a parser tag says.
pub open spec fn tag_model(native: pulldown_cmark::Tag) -> TagView {
    match native {
        pulldown_cmark::Tag::Paragraph => TagView::Paragraph,
        pulldown_cmark::Tag::Heading(level, fragment, classes) => TagView::Heading(
            heading_level_model(level),
            optional_str_view(fragment),
            strs_view(classes@),
        ),
        pulldown_cmark::Tag::BlockQuote => TagView::BlockQuote,
        pulldown_cmark::Tag::CodeBlock(kind) => TagView::CodeBlock(code_block_kind_model(kind)),
        pulldown_cmark::Tag::List(first) => TagView::List(first),
        pulldown_cmark::Tag::Item => TagView::Item,
        pulldown_cmark::Tag::FootnoteDefinition(label) => TagView::FootnoteDefinition(
            cow_text(label),
        ),
        pulldown_cmark::Tag::Table(alignments) => TagView::Table(alignments_model(alignments@)),
        pulldown_cmark::Tag::TableHead => TagView::TableHead,
        pulldown_cmark::Tag::TableRow => TagView::TableRow,
        pulldown_cmark::Tag::TableCell => TagView::TableCell,
        pulldown_cmark::Tag::Emphasis => TagView::Emphasis,
        pulldown_cmark::Tag::Strong => TagView::Strong,
        pulldown_cmark::Tag::Strikethrough => TagView::Strikethrough,
        pulldown_cmark::Tag::Link(link_type, destination, title) => TagView::Link(
            link_type_model(link_type),
            cow_text(destination),
            cow_text(title),
        ),
        pulldown_cmark::Tag::Image(link_type, source, title) => TagView::Image(
            link_type_model(link_type),
            cow_text(source),
            cow_text(title),
        ),
    }
}

/// Copies an optional borrowed slice into an optional string of its own.
pub fn copy_optional_str(text: Option<&str>) -> (owned: Option<String>)
    ensures
        optional_string_view(owned) == optional_str_view(text),
{
    match text {
        Some(s) => Some(s.to_owned()),
        None => None,
    }
}

/// Whether an optional string holds what an optional slice holds: both
/// absent, or both present with the same characters.
pub fn optional_str_eq(owned: &Option<String>, text: &Option<&str>) -> (same: bool)
    ensures
        same == (optional_string_view(*owned) == optional_str_view(*text)),
{
    match (owned, text) {
        (Some(left), Some(right)) => str_eq(left.as_str(), right),
        (None, None) => true,
        _ => false,
    }
}

impl AbiTag {
    /// Copies a parser tag into an owned tag. Every borrowed string is
    /// copied, the class names and the column alignments keep their order,
    /// and a list's first number passes through unchanged.
    pub fn from(native: pulldown_cmark::Tag<'_>) -> (abi: AbiTag)
        ensures
            abi@ == tag_model(native),
    {
        match native {
            pulldown_cmark::Tag::Paragraph => AbiTag::Paragraph,
            pulldown_cmark::Tag::Heading(level, fragment, classes) => AbiTag::Heading(
                AbiHeadingLevel::from(level),
                copy_optional_str(fragment),
                copy_strs(&classes),
            ),
            pulldown_cmark::Tag::BlockQuote => AbiTag::BlockQuote,
            pulldown_cmark::Tag::CodeBlock(kind) => AbiTag::CodeBlock(AbiCodeBlockKind::from(kind)),
            pulldown_cmark::Tag::List(first) => AbiTag::ListTag(first),
            pulldown_cmark::Tag::Item => AbiTag::Item,
            pulldown_cmark::Tag::FootnoteDefinition(label) => AbiTag::FootnoteDefinition(
                cow_into_string(label),
            ),
            pulldown_cmark::Tag::Table(alignments) => AbiTag::Table(copy_alignments(&alignments)),
            pulldown_cmark::Tag::TableHead => AbiTag::TableHead,
            pulldown_cmark::Tag::TableRow => AbiTag::TableRow,
            pulldown_cmark::Tag::TableCell => AbiTag::TableCell,
            pulldown_cmark::Tag::Emphasis => AbiTag::Emphasis,
            pulldown_cmark::Tag::Strong => AbiTag::Strong,
            pulldown_cmark::Tag::Strikethrough => AbiTag::StrikeThrough,
            pulldown_cmark::Tag::Link(link_type, destination, title) => AbiTag::Link(
                AbiLinkType::from(link_type),
                cow_into_string(destination),
                cow_into_string(title),
            ),
            pulldown_cmark::Tag::Image(link_type, source, title) => AbiTag::Image(
                AbiLinkType::from(link_type),
                cow_into_string(source),
                cow_into_string(title),
            ),
        }
    }
}

/// An owned tag equals a parser tag exactly when both say the same: the
/// same variant, and the same payload down to every string and every
/// position of a sequence.
impl PartialEq<pulldown_cmark::Tag<'_>> for AbiTag {
    fn eq(&self, native: &pulldown_cmark::Tag<'_>) -> (same: bool) {
        match (self, native) {
            (AbiTag::Paragraph, pulldown_cmark::Tag::Paragraph) => true,
            (
                AbiTag::Heading(level, fragment, classes),
                pulldown_cmark::Tag::Heading(native_level, native_fragment, native_classes),
            ) => {
                level == native_level && optional_str_eq(fragment, native_fragment) && strs_eq(
                    classes,
                    native_classes,
                )
            },
            (AbiTag::BlockQuote, pulldown_cmark::Tag::BlockQuote) => true,
            (AbiTag::CodeBlock(kind), pulldown_cmark::Tag::CodeBlock(native_kind)) => {
                kind == native_kind
            },
            (AbiTag::ListTag(first), pulldown_cmark::Tag::List(native_first)) => match (
                first,
                native_first,
            ) {
                (Some(left), Some(right)) => *left == *right,
                (None, None) => true,
                _ => false,
            },
            (AbiTag::Item, pulldown_cmark::Tag::Item) => true,
            (
                AbiTag::FootnoteDefinition(label),
                pulldown_cmark::Tag::FootnoteDefinition(native_label),
            ) => str_eq(label.as_str(), cow_as_str(native_label)),
            (AbiTag::Table(alignments), pulldown_cmark::Tag::Table(native_alignments)) => {
                alignments_eq(alignments, native_alignments)
            },
            (AbiTag::TableHead, pulldown_cmark::Tag::TableHead) => true,
            (AbiTag::TableRow, pulldown_cmark::Tag::TableRow) => true,
            (AbiTag::TableCell, pulldown_cmark::Tag::TableCell) => true,
            (AbiTag::Emphasis, pulldown_cmark::Tag::Emphasis) => true,
            (AbiTag::Strong, pulldown_cmark::Tag::Strong) => true,
            (AbiTag::StrikeThrough, pulldown_cmark::Tag::Strikethrough) => true,
            (
                AbiTag::Link(link_type, destination, title),
                pulldown_cmark::Tag::Link(native_type, native_destination, native_title),
            ) => {
                link_type == native_type && str_eq(
                    destination.as_str(),
                    cow_as_str(native_destination),
                ) && str_eq(title.as_str(), cow_as_str(native_title))
            },
            (
                AbiTag::Image(link_type, source, title),
                pulldown_cmark::Tag::Image(native_type, native_source, native_title),
            ) => {
                link_type == native_type && str_eq(source.as_str(), cow_as_str(native_source))
                    && str_eq(title.as_str(), cow_as_str(native_title))
            },
            _ => false,
        }
    }
}

impl PartialEqSpecImpl<pulldown_cmark::Tag<'_>> for AbiTag {
    open spec fn obeys_eq_spec() -> bool {
        true
    }

    open spec fn eq_spec(&self, native: &pulldown_cmark::Tag<'_>) -> bool {
        self@ == tag_model(*native)
    }
}

} // verus!
