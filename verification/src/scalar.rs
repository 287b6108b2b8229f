//! The three closed enumerations without payload: link type, column
//! alignment and heading level.
use vstd::prelude::*;
use vstd::std_specs::cmp::PartialEqSpecImpl;

verus! {

/// How a link or image was written in the source.
#[derive(Clone, Copy, Debug, PartialEq, Eq, Structural)]
pub enum AbiLinkType {
    Inline,
    Reference,
    ReferenceUnknown,
    Collapsed,
    CollapsedUnknown,
    Shortcut,
    ShortcutUnknown,
    Autolink,
    Email,
}

/// The owned link type that stands for a parser link type.
pub open spec fn link_type_model(native: pulldown_cmark::LinkType) -> AbiLinkType {
    match native {
        pulldown_cmark::LinkType::Inline => AbiLinkType::Inline,
        pulldown_cmark::LinkType::Reference => AbiLinkType::Reference,
        pulldown_cmark::LinkType::ReferenceUnknown => AbiLinkType::ReferenceUnknown,
        pulldown_cmark::LinkType::Collapsed => AbiLinkType::Collapsed,
        pulldown_cmark::LinkType::CollapsedUnknown => AbiLinkType::CollapsedUnknown,
        pulldown_cmark::LinkType::Shortcut => AbiLinkType::Shortcut,
        pulldown_cmark::LinkType::ShortcutUnknown => AbiLinkType::ShortcutUnknown,
        pulldown_cmark::LinkType::Autolink => AbiLinkType::Autolink,
        pulldown_cmark::LinkType::Email => AbiLinkType::Email,
    }
}

impl AbiLinkType {
    /// Copies a parser link type into its owned counterpart.
    pub fn from(native: pulldown_cmark::LinkType) -> (abi: AbiLinkType)
        ensures
            abi == link_type_model(native),
    {
        match native {
            pulldown_cmark::LinkType::Inline => AbiLinkType::Inline,
            pulldown_cmark::LinkType::Reference => AbiLinkType::Reference,
            pulldown_cmark::LinkType::ReferenceUnknown => AbiLinkType::ReferenceUnknown,
            pulldown_cmark::LinkType::Collapsed => AbiLinkType::Collapsed,
            pulldown_cmark::LinkType::CollapsedUnknown => AbiLinkType::CollapsedUnknown,
            pulldown_cmark::LinkType::Shortcut => AbiLinkType::Shortcut,
            pulldown_cmark::LinkType::ShortcutUnknown => AbiLinkType::ShortcutUnknown,
            pulldown_cmark::LinkType::Autolink => AbiLinkType::Autolink,
            pulldown_cmark::LinkType::Email => AbiLinkType::Email,
        }
    }
}

/// An owned link type equals a parser link type exactly when it stands
/// for it.
impl PartialEq<pulldown_cmark::LinkType> for AbiLinkType {
    fn eq(&self, native: &pulldown_cmark::LinkType) -> (same: bool) {
        match (self, native) {
            (AbiLinkType::Inline, pulldown_cmark::LinkType::Inline) => true,
            (AbiLinkType::Reference, pulldown_cmark::LinkType::Reference) => true,
            (AbiLinkType::ReferenceUnknown, pulldown_cmark::LinkType::ReferenceUnknown) => true,
            (AbiLinkType::Collapsed, pulldown_cmark::LinkType::Collapsed) => true,
            (AbiLinkType::CollapsedUnknown, pulldown_cmark::LinkType::CollapsedUnknown) => true,
            (AbiLinkType::Shortcut, pulldown_cmark::LinkType::Shortcut) => true,
            (AbiLinkType::ShortcutUnknown, pulldown_cmark::LinkType::ShortcutUnknown) => true,
            (AbiLinkType::Autolink, pulldown_cmark::LinkType::Autolink) => true,
            (AbiLinkType::Email, pulldown_cmark::LinkType::Email) => true,
            _ => false,
        }
    }
}

impl PartialEqSpecImpl<pulldown_cmark::LinkType> for AbiLinkType {
    open spec fn obeys_eq_spec() -> bool {
        true
    }

    open spec fn eq_spec(&self, native: &pulldown_cmark::LinkType) -> bool {
        *self == link_type_model(*native)
    }
}

/// The text alignment of a table column.
#[derive(Clone, Copy, Debug, PartialEq, Eq, Structural)]
pub enum AbiAlignment {
    /// No alignment was asked for: the column keeps the default.
    Unaligned,
    Left,
    Center,
    Right,
}

/// The owned alignment that stands for a parser alignment.
pub open spec fn alignment_model(native: pulldown_cmark::Alignment) -> AbiAlignment {
    match native {
        pulldown_cmark::Alignment::None => AbiAlignment::Unaligned,
        pulldown_cmark::Alignment::Left => AbiAlignment::Left,
        pulldown_cmark::Alignment::Center => AbiAlignment::Center,
        pulldown_cmark::Alignment::Right => AbiAlignment::Right,
    }
}

impl AbiAlignment {
    /// Copies a parser alignment into its owned counterpart.
    pub fn from(native: pulldown_cmark::Alignment) -> (abi: AbiAlignment)
        ensures
            abi == alignment_model(native),
    {
        match native {
            pulldown_cmark::Alignment::None => AbiAlignment::Unaligned,
            pulldown_cmark::Alignment::Left => AbiAlignment::Left,
            pulldown_cmark::Alignment::Center => AbiAlignment::Center,
            pulldown_cmark::Alignment::Right => AbiAlignment::Right,
        }
    }
}

/// An owned alignment equals a parser alignment exactly when it stands for
/// it.
impl PartialEq<pulldown_cmark::Alignment> for AbiAlignment {
    fn eq(&self, native: &pulldown_cmark::Alignment) -> (same: bool) {
        match (self, native) {
            (AbiAlignment::Unaligned, pulldown_cmark::Alignment::None) => true,
            (AbiAlignment::Left, pulldown_cmark::Alignment::Left) => true,
            (AbiAlignment::Center, pulldown_cmark::Alignment::Center) => true,
            (AbiAlignment::Right, pulldown_cmark::Alignment::Right) => true,
            _ => false,
        }
    }
}

impl PartialEqSpecImpl<pulldown_cmark::Alignment> for AbiAlignment {
    open spec fn obeys_eq_spec() -> bool {
        true
    }

    open spec fn eq_spec(&self, native: &pulldown_cmark::Alignment) -> bool {
        *self == alignment_model(*native)
    }
}

/// The rank of a heading, from the topmost `H1` down to `H6`.
#[derive(Clone, Copy, Debug, PartialEq, Eq, Structural)]
pub enum AbiHeadingLevel {
    H1,
    H2,
    H3,
    H4,
    H5,
    H6,
}

/// The owned heading level that stands for a parser heading level.
pub open spec fn heading_level_model(native: pulldown_cmark::HeadingLevel) -> AbiHeadingLevel {
    match native {
        pulldown_cmark::HeadingLevel::H1 => AbiHeadingLevel::H1,
        pulldown_cmark::HeadingLevel::H2 => AbiHeadingLevel::H2,
        pulldown_cmark::HeadingLevel::H3 => AbiHeadingLevel::H3,
        pulldown_cmark::HeadingLevel::H4 => AbiHeadingLevel::H4,
        pulldown_cmark::HeadingLevel::H5 => AbiHeadingLevel::H5,
        pulldown_cmark::HeadingLevel::H6 => AbiHeadingLevel::H6,
    }
}

impl AbiHeadingLevel {
    /// Copies a parser heading level into its owned counterpart.
    pub fn from(native: pulldown_cmark::HeadingLevel) -> (abi: AbiHeadingLevel)
        ensures
            abi == heading_level_model(native),
    {
        match native {
            pulldown_cmark::HeadingLevel::H1 => AbiHeadingLevel::H1,
            pulldown_cmark::HeadingLevel::H2 => AbiHeadingLevel::H2,
            pulldown_cmark::HeadingLevel::H3 => AbiHeadingLevel::H3,
            pulldown_cmark::HeadingLevel::H4 => AbiHeadingLevel::H4,
            pulldown_cmark::HeadingLevel::H5 => AbiHeadingLevel::H5,
            pulldown_cmark::HeadingLevel::H6 => AbiHeadingLevel::H6,
        }
    }
}

/// An owned heading level equals a parser heading level exactly when it
/// stands for it.
impl PartialEq<pulldown_cmark::HeadingLevel> for AbiHeadingLevel {
    fn eq(&self, native: &pulldown_cmark::HeadingLevel) -> (same: bool) {
        match (self, native) {
            (AbiHeadingLevel::H1, pulldown_cmark::HeadingLevel::H1) => true,
            (AbiHeadingLevel::H2, pulldown_cmark::HeadingLevel::H2) => true,
            (AbiHeadingLevel::H3, pulldown_cmark::HeadingLevel::H3) => true,
            (AbiHeadingLevel::H4, pulldown_cmark::HeadingLevel::H4) => true,
            (AbiHeadingLevel::H5, pulldown_cmark::HeadingLevel::H5) => true,
            (AbiHeadingLevel::H6, pulldown_cmark::HeadingLevel::H6) => true,
            _ => false,
        }
    }
}

impl PartialEqSpecImpl<pulldown_cmark::HeadingLevel> for AbiHeadingLevel {
    open spec fn obeys_eq_spec() -> bool {
        true
    }

    open spec fn eq_spec(&self, native: &pulldown_cmark::HeadingLevel) -> bool {
        *self == heading_level_model(*native)
    }
}

} // verus!
