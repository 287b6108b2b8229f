//! Parser feature flags: six capabilities, each switched on or off by
//! itself.
use vstd::prelude::*;
use crate::native::{option_bits, options_contains, options_empty, options_flag, options_insert};

verus! {

/// One of the six optional features of the parser.
#[derive(Clone, Copy, Debug, PartialEq, Eq, Structural)]
pub enum Flag {
    Tables,
    Footnotes,
    Strikethrough,
    Tasklists,
    SmartPunctuation,
    HeadingAttributes,
}

impl Flag {
    /// The position of the bit by which the parser's own bit set records
    /// this feature.
    pub open spec fn bit(self) -> nat {
        match self {
            Flag::Tables => 1,
            Flag::Footnotes => 2,
            Flag::Strikethrough => 3,
            Flag::Tasklists => 4,
            Flag::SmartPunctuation => 5,
            Flag::HeadingAttributes => 6,
        }
    }
}

/// The features switched on for a parse, one field for each. Nothing is
/// implied: a feature is on exactly when its field is `true`.
#[derive(Clone, Copy, Debug, PartialEq, Eq, Structural)]
pub struct AbiOptions {
    pub tables: bool,
    pub footnotes: bool,
    pub strikethrough: bool,
    pub tasklists: bool,
    pub smart_punctuation: bool,
    pub heading_attributes: bool,
}

/// The bit positions of the six features.
pub open spec fn named_bits() -> Set<nat> {
    Set::new(|b: nat| 1 <= b <= 6)
}

/// The options that a native bit set stands for: a feature is on exactly
/// when its bit is set. Bits that name no feature are not looked at.
pub open spec fn options_of_bits(bits: Set<nat>) -> AbiOptions {
    AbiOptions {
        tables: bits.contains(Flag::Tables.bit()),
        footnotes: bits.contains(Flag::Footnotes.bit()),
        strikethrough: bits.contains(Flag::Strikethrough.bit()),
        tasklists: bits.contains(Flag::Tasklists.bit()),
        smart_punctuation: bits.contains(Flag::SmartPunctuation.bit()),
        heading_attributes: bits.contains(Flag::HeadingAttributes.bit()),
    }
}

impl AbiOptions {
    /// Whether `flag` is switched on.
    pub open spec fn has(self, flag: Flag) -> bool {
        match flag {
            Flag::Tables => self.tables,
            Flag::Footnotes => self.footnotes,
            Flag::Strikethrough => self.strikethrough,
            Flag::Tasklists => self.tasklists,
            Flag::SmartPunctuation => self.smart_punctuation,
            Flag::HeadingAttributes => self.heading_attributes,
        }
    }

    /// The bits that the parser's own bit set holds for these options:
    /// the bit of each feature that is on, and no other.
    pub open spec fn native_bits(self) -> Set<nat> {
        Set::new(
            |b: nat|
                exists|flag: Flag| #![trigger self.has(flag)] self.has(flag) && flag.bit() == b,
        )
    }

    /// The options with every feature off.
    pub fn empty() -> (options: AbiOptions)
        ensures
            forall|flag: Flag| !options.has(flag),
            options.native_bits() == Set::<nat>::empty(),
    {
        let options = AbiOptions {
            tables: false,
            footnotes: false,
            strikethrough: false,
            tasklists: false,
            smart_punctuation: false,
            heading_attributes: false,
        };
        assert(options.native_bits() =~= Set::<nat>::empty());
        options
    }

    /// Whether `flag` is switched on.
    pub fn contains(&self, flag: Flag) -> (on: bool)
        ensures
            on == self.has(flag),
    {
        match flag {
            Flag::Tables => self.tables,
            Flag::Footnotes => self.footnotes,
            Flag::Strikethrough => self.strikethrough,
            Flag::Tasklists => self.tasklists,
            Flag::SmartPunctuation => self.smart_punctuation,
            Flag::HeadingAttributes => self.heading_attributes,
        }
    }

    /// Switches `flag` on and leaves the other features as they are.
    pub fn insert(&mut self, flag: Flag)
        ensures
            final(self).has(flag),
            forall|other: Flag| other != flag ==> final(self).has(other) == old(self).has(other),
    {
        match flag {
            Flag::Tables => self.tables = true,
            Flag::Footnotes => self.footnotes = true,
            Flag::Strikethrough => self.strikethrough = true,
            Flag::Tasklists => self.tasklists = true,
            Flag::SmartPunctuation => self.smart_punctuation = true,
            Flag::HeadingAttributes => self.heading_attributes = true,
        }
    }

    /// Reads the six features off a native bit set, one at a time.
    pub fn from(native: pulldown_cmark::Options) -> (abi: AbiOptions)
        ensures
            abi == options_of_bits(option_bits(native)),
    {
        let mut abi = AbiOptions::empty();
        if options_contains(&native, options_flag(Flag::Tables)) {
            abi.insert(Flag::Tables);
        }
        if options_contains(&native, options_flag(Flag::Footnotes)) {
            abi.insert(Flag::Footnotes);
        }
        if options_contains(&native, options_flag(Flag::Strikethrough)) {
            abi.insert(Flag::Strikethrough);
        }
        if options_contains(&native, options_flag(Flag::Tasklists)) {
            abi.insert(Flag::Tasklists);
        }
        if options_contains(&native, options_flag(Flag::SmartPunctuation)) {
            abi.insert(Flag::SmartPunctuation);
        }
        if options_contains(&native, options_flag(Flag::HeadingAttributes)) {
            abi.insert(Flag::HeadingAttributes);
        }
        proof {
            lemma_has_all(abi);
            lemma_has_all(options_of_bits(option_bits(native)));
        }
        abi
    }

    /// Builds the native bit set with the bit of each feature that is on,
    /// and no other bit.
    pub fn into(self) -> (native: pulldown_cmark::Options)
        ensures
            option_bits(native) == self.native_bits(),
    {
        let mut native = options_empty();
        if self.contains(Flag::Tables) {
            options_insert(&mut native, options_flag(Flag::Tables));
        }
        if self.contains(Flag::Footnotes) {
            options_insert(&mut native, options_flag(Flag::Footnotes));
        }
        if self.contains(Flag::Strikethrough) {
            options_insert(&mut native, options_flag(Flag::Strikethrough));
        }
        if self.contains(Flag::Tasklists) {
            options_insert(&mut native, options_flag(Flag::Tasklists));
        }
        if self.contains(Flag::SmartPunctuation) {
            options_insert(&mut native, options_flag(Flag::SmartPunctuation));
        }
        if self.contains(Flag::HeadingAttributes) {
            options_insert(&mut native, options_flag(Flag::HeadingAttributes));
        }
        proof {
            lemma_native_bits(self);
            assert(option_bits(native) =~= self.native_bits());
        }
        native
    }
}

/// Two options that agree on each of the six features are the same
/// options.
pub proof fn lemma_has_all(options: AbiOptions)
    ensures
        options == (AbiOptions {
            tables: options.has(Flag::Tables),
            footnotes: options.has(Flag::Footnotes),
            strikethrough: options.has(Flag::Strikethrough),
            tasklists: options.has(Flag::Tasklists),
            smart_punctuation: options.has(Flag::SmartPunctuation),
            heading_attributes: options.has(Flag::HeadingAttributes),
        }),
{
}

/// A bit is among the native bits of some options exactly when it is the
/// bit of a feature that is on.
pub proof fn lemma_native_bits(options: AbiOptions)
    ensures
        forall|b: nat|
            options.native_bits().contains(b) <==> {
                ||| b == 1 && options.tables
                ||| b == 2 && options.footnotes
                ||| b == 3 && options.strikethrough
                ||| b == 4 && options.tasklists
                ||| b == 5 && options.smart_punctuation
                ||| b == 6 && options.heading_attributes
            },
{
    assert forall|b: nat|
        {
            ||| b == 1 && options.tables
            ||| b == 2 && options.footnotes
            ||| b == 3 && options.strikethrough
            ||| b == 4 && options.tasklists
            ||| b == 5 && options.smart_punctuation
            ||| b == 6 && options.heading_attributes
        } implies options.native_bits().contains(b) by {
        if b == 1 {
            assert(options.has(Flag::Tables));
        } else if b == 2 {
            assert(options.has(Flag::Footnotes));
        } else if b == 3 {
            assert(options.has(Flag::Strikethrough));
        } else if b == 4 {
            assert(options.has(Flag::Tasklists));
        } else if b == 5 {
            assert(options.has(Flag::SmartPunctuation));
        } else {
            assert(options.has(Flag::HeadingAttributes));
        }
    }
}

/// Options survive the way to the native bit set and back: reading the
/// features off the bits built for some options gives those options.
pub proof fn lemma_options_round_trip(options: AbiOptions)
    ensures
        options_of_bits(options.native_bits()) == options,
        options.native_bits().subset_of(named_bits()),
{
    lemma_native_bits(options);
}

/// A native bit set that holds only bits of the six features survives the
/// way to owned options and back: the bits built for the options read off
/// it are the bits it holds.
pub proof fn lemma_bits_round_trip(bits: Set<nat>)
    requires
        bits.subset_of(named_bits()),
    ensures
        options_of_bits(bits).native_bits() == bits,
{
    lemma_native_bits(options_of_bits(bits));
    assert(options_of_bits(bits).native_bits() =~= bits);
}

} // verus!
