use cmark_marshal::error::Error;
use cmark_marshal::event::AbiEvent;
use cmark_marshal::options::{AbiOptions, Flag};
use cmark_marshal::range::Range;
use cmark_marshal::scalar::{AbiAlignment, AbiHeadingLevel, AbiLinkType};
use cmark_marshal::tag::{
    alignments_eq, copy_alignments, copy_optional_str, copy_strs, optional_str_eq, str_eq, strs_eq,
    AbiCodeBlockKind, AbiTag,
};
use pulldown_cmark::{Alignment, CodeBlockKind, CowStr, Event, HeadingLevel, LinkType, Options, Tag};

fn link_types() -> Vec<(LinkType, AbiLinkType)> {
    vec![
        (LinkType::Inline, AbiLinkType::Inline),
        (LinkType::Reference, AbiLinkType::Reference),
        (LinkType::ReferenceUnknown, AbiLinkType::ReferenceUnknown),
        (LinkType::Collapsed, AbiLinkType::Collapsed),
        (LinkType::CollapsedUnknown, AbiLinkType::CollapsedUnknown),
        (LinkType::Shortcut, AbiLinkType::Shortcut),
        (LinkType::ShortcutUnknown, AbiLinkType::ShortcutUnknown),
        (LinkType::Autolink, AbiLinkType::Autolink),
        (LinkType::Email, AbiLinkType::Email),
    ]
}

fn alignments() -> Vec<(Alignment, AbiAlignment)> {
    vec![
        (Alignment::None, AbiAlignment::Unaligned),
        (Alignment::Left, AbiAlignment::Left),
        (Alignment::Center, AbiAlignment::Center),
        (Alignment::Right, AbiAlignment::Right),
    ]
}

fn heading_levels() -> Vec<(HeadingLevel, AbiHeadingLevel)> {
    vec![
        (HeadingLevel::H1, AbiHeadingLevel::H1),
        (HeadingLevel::H2, AbiHeadingLevel::H2),
        (HeadingLevel::H3, AbiHeadingLevel::H3),
        (HeadingLevel::H4, AbiHeadingLevel::H4),
        (HeadingLevel::H5, AbiHeadingLevel::H5),
        (HeadingLevel::H6, AbiHeadingLevel::H6),
    ]
}

fn flags() -> Vec<(Flag, Options)> {
    vec![
        (Flag::Tables, Options::ENABLE_TABLES),
        (Flag::Footnotes, Options::ENABLE_FOOTNOTES),
        (Flag::Strikethrough, Options::ENABLE_STRIKETHROUGH),
        (Flag::Tasklists, Options::ENABLE_TASKLISTS),
        (Flag::SmartPunctuation, Options::ENABLE_SMART_PUNCTUATION),
        (Flag::HeadingAttributes, Options::ENABLE_HEADING_ATTRIBUTES),
    ]
}

fn options_of_subset(subset: u32) -> AbiOptions {
    AbiOptions {
        tables: subset & 1 != 0,
        footnotes: subset & 2 != 0,
        strikethrough: subset & 4 != 0,
        tasklists: subset & 8 != 0,
        smart_punctuation: subset & 16 != 0,
        heading_attributes: subset & 32 != 0,
    }
}

fn native_tags() -> Vec<Tag<'static>> {
    vec![
        Tag::Paragraph,
        Tag::Heading(HeadingLevel::H2, Some("top"), vec!["big", "bold"]),
        Tag::Heading(HeadingLevel::H2, None, vec![]),
        Tag::BlockQuote,
        Tag::CodeBlock(CodeBlockKind::Indented),
        Tag::CodeBlock(CodeBlockKind::Fenced(CowStr::Borrowed("rust"))),
        Tag::List(None),
        Tag::List(Some(3)),
        Tag::Item,
        Tag::FootnoteDefinition(CowStr::Borrowed("note")),
        Tag::Table(vec![Alignment::None, Alignment::Left, Alignment::Center, Alignment::Right]),
        Tag::TableHead,
        Tag::TableRow,
        Tag::TableCell,
        Tag::Emphasis,
        Tag::Strong,
        Tag::Strikethrough,
        Tag::Link(LinkType::Inline, CowStr::Borrowed("http://a"), CowStr::Borrowed("t")),
        Tag::Image(LinkType::Inline, CowStr::Borrowed("http://a"), CowStr::Borrowed("t")),
    ]
}

fn owned_tags() -> Vec<AbiTag> {
    vec![
        AbiTag::Paragraph,
        AbiTag::Heading(
            AbiHeadingLevel::H2,
            Some("top".to_string()),
            vec!["big".to_string(), "bold".to_string()],
        ),
        AbiTag::Heading(AbiHeadingLevel::H2, None, vec![]),
        AbiTag::BlockQuote,
        AbiTag::CodeBlock(AbiCodeBlockKind::Indented),
        AbiTag::CodeBlock(AbiCodeBlockKind::Fenced("rust".to_string())),
        AbiTag::ListTag(None),
        AbiTag::ListTag(Some(3)),
        AbiTag::Item,
        AbiTag::FootnoteDefinition("note".to_string()),
        AbiTag::Table(vec![
            AbiAlignment::Unaligned,
            AbiAlignment::Left,
            AbiAlignment::Center,
            AbiAlignment::Right,
        ]),
        AbiTag::TableHead,
        AbiTag::TableRow,
        AbiTag::TableCell,
        AbiTag::Emphasis,
        AbiTag::Strong,
        AbiTag::StrikeThrough,
        AbiTag::Link(AbiLinkType::Inline, "http://a".to_string(), "t".to_string()),
        AbiTag::Image(AbiLinkType::Inline, "http://a".to_string(), "t".to_string()),
    ]
}

fn native_events() -> Vec<Event<'static>> {
    vec![
        Event::Start(Tag::List(Some(3))),
        Event::End(Tag::List(Some(3))),
        Event::Text(CowStr::Borrowed("same")),
        Event::Code(CowStr::Borrowed("same")),
        Event::Html(CowStr::Borrowed("same")),
        Event::FootnoteReference(CowStr::Borrowed("same")),
        Event::SoftBreak,
        Event::HardBreak,
        Event::Rule,
        Event::TaskListMarker(true),
        Event::TaskListMarker(false),
    ]
}

fn owned_events() -> Vec<AbiEvent> {
    vec![
        AbiEvent::Start(AbiTag::ListTag(Some(3))),
        AbiEvent::End(AbiTag::ListTag(Some(3))),
        AbiEvent::Text("same".to_string()),
        AbiEvent::Code("same".to_string()),
        AbiEvent::Html("same".to_string()),
        AbiEvent::FootnoteReference("same".to_string()),
        AbiEvent::SoftBreak,
        AbiEvent::HardBreak,
        AbiEvent::Rule,
        AbiEvent::TaskListMarker(true),
        AbiEvent::TaskListMarker(false),
    ]
}

#[test]
fn link_types_map_one_to_one() {
    let pairs = link_types();
    assert_eq!(pairs.len(), 9);
    for (i, (native, abi)) in pairs.iter().enumerate() {
        assert_eq!(AbiLinkType::from(*native), *abi);
        for (j, (_, other)) in pairs.iter().enumerate() {
            assert_eq!(other == native, i == j);
        }
    }
}

#[test]
fn alignments_map_one_to_one() {
    let pairs = alignments();
    for (i, (native, abi)) in pairs.iter().enumerate() {
        assert_eq!(AbiAlignment::from(*native), *abi);
        for (j, (_, other)) in pairs.iter().enumerate() {
            assert_eq!(other == native, i == j);
        }
    }
}

#[test]
fn heading_levels_map_one_to_one() {
    let pairs = heading_levels();
    for (i, (native, abi)) in pairs.iter().enumerate() {
        assert_eq!(AbiHeadingLevel::from(*native), *abi);
        for (j, (_, other)) in pairs.iter().enumerate() {
            assert_eq!(other == native, i == j);
        }
    }
}

#[test]
fn code_block_kinds_convert_and_compare() {
    let fenced = CodeBlockKind::Fenced(CowStr::Borrowed("rust"));
    let boxed = CodeBlockKind::Fenced(CowStr::Boxed("rust".to_string().into_boxed_str()));
    let other = CodeBlockKind::Fenced(CowStr::Borrowed("c"));
    let blank = CodeBlockKind::Fenced(CowStr::Borrowed(""));
    let abi = AbiCodeBlockKind::from(fenced.clone());
    assert_eq!(abi, AbiCodeBlockKind::Fenced("rust".to_string()));
    assert_eq!(AbiCodeBlockKind::from(boxed.clone()), abi);
    assert!(abi == fenced);
    assert!(abi == boxed);
    assert!(abi != other);
    assert!(abi != blank);
    assert!(abi != CodeBlockKind::Indented);
    assert_eq!(AbiCodeBlockKind::from(CodeBlockKind::Indented), AbiCodeBlockKind::Indented);
    assert!(AbiCodeBlockKind::Indented == CodeBlockKind::Indented);
    assert!(AbiCodeBlockKind::Indented != blank);
    assert_eq!(AbiCodeBlockKind::from(blank), AbiCodeBlockKind::Fenced(String::new()));
}

#[test]
fn every_tag_converts_to_its_counterpart() {
    let native = native_tags();
    let owned = owned_tags();
    assert_eq!(native.len(), owned.len());
    for (n, o) in native.into_iter().zip(owned) {
        assert_eq!(AbiTag::from(n), o);
    }
}

#[test]
fn a_tag_agrees_with_its_counterpart_only() {
    let native = native_tags();
    let owned = owned_tags();
    for (i, o) in owned.iter().enumerate() {
        for (j, n) in native.iter().enumerate() {
            assert_eq!(o == n, i == j);
        }
    }
}

#[test]
fn a_converted_tag_agrees_with_its_source() {
    for n in native_tags() {
        assert!(AbiTag::from(n.clone()) == n);
    }
}

#[test]
fn list_start_passes_through_unchanged() {
    assert_eq!(AbiTag::from(Tag::List(Some(3))), AbiTag::ListTag(Some(3)));
    assert_eq!(AbiTag::from(Tag::List(Some(0))), AbiTag::ListTag(Some(0)));
    assert_eq!(AbiTag::from(Tag::List(Some(u64::MAX))), AbiTag::ListTag(Some(u64::MAX)));
    assert_eq!(AbiTag::from(Tag::List(None)), AbiTag::ListTag(None));
    assert!(AbiTag::ListTag(Some(3)) == Tag::List(Some(3)));
    assert!(AbiTag::ListTag(Some(3)) != Tag::List(Some(4)));
    assert!(AbiTag::ListTag(Some(0)) != Tag::List(None));
    assert!(AbiTag::ListTag(None) != Tag::List(Some(0)));
}

#[test]
fn ordered_list_starting_at_three_keeps_its_start() {
    let items = cmark_marshal::facade::Pulldown::parse("3. three\n4. four\n".to_string());
    assert_eq!(items[0].0, AbiEvent::Start(AbiTag::ListTag(Some(3))));
    assert_eq!(items[items.len() - 1].0, AbiEvent::End(AbiTag::ListTag(Some(3))));
    let unordered = cmark_marshal::facade::Pulldown::parse("* one\n".to_string());
    assert_eq!(unordered[0].0, AbiEvent::Start(AbiTag::ListTag(None)));
}

#[test]
fn heading_payload_is_compared_part_by_part() {
    let abi = AbiTag::Heading(
        AbiHeadingLevel::H1,
        Some("id".to_string()),
        vec!["a".to_string(), "b".to_string()],
    );
    assert!(abi == Tag::Heading(HeadingLevel::H1, Some("id"), vec!["a", "b"]));
    assert!(abi != Tag::Heading(HeadingLevel::H2, Some("id"), vec!["a", "b"]));
    assert!(abi != Tag::Heading(HeadingLevel::H1, Some("di"), vec!["a", "b"]));
    assert!(abi != Tag::Heading(HeadingLevel::H1, None, vec!["a", "b"]));
    assert!(abi != Tag::Heading(HeadingLevel::H1, Some("id"), vec!["b", "a"]));
    assert!(abi != Tag::Heading(HeadingLevel::H1, Some("id"), vec!["a"]));
    assert!(abi != Tag::Heading(HeadingLevel::H1, Some("id"), vec!["a", "b", "c"]));
}

#[test]
fn link_and_image_are_told_apart() {
    let link = AbiTag::Link(AbiLinkType::Email, "d".to_string(), "t".to_string());
    let dest = CowStr::Borrowed("d");
    let title = CowStr::Borrowed("t");
    assert!(link == Tag::Link(LinkType::Email, dest.clone(), title.clone()));
    assert!(link != Tag::Image(LinkType::Email, dest.clone(), title.clone()));
    assert!(link != Tag::Link(LinkType::Autolink, dest.clone(), title.clone()));
    assert!(link != Tag::Link(LinkType::Email, title.clone(), title.clone()));
    assert!(link != Tag::Link(LinkType::Email, dest.clone(), dest.clone()));
    assert!(link != Tag::Link(LinkType::Email, title, dest));
}

#[test]
fn table_alignments_keep_their_columns() {
    let native = vec![Alignment::Right, Alignment::None, Alignment::Right, Alignment::Left];
    let abi = copy_alignments(&native);
    assert_eq!(
        abi,
        vec![
            AbiAlignment::Right,
            AbiAlignment::Unaligned,
            AbiAlignment::Right,
            AbiAlignment::Left
        ]
    );
    assert!(alignments_eq(&abi, &native));
    assert!(!alignments_eq(&abi, &vec![Alignment::Right, Alignment::None, Alignment::Right]));
    assert!(!alignments_eq(
        &abi,
        &vec![Alignment::Right, Alignment::None, Alignment::Left, Alignment::Right]
    ));
    assert!(alignments_eq(&Vec::new(), &Vec::new()));
    assert_eq!(copy_alignments(&Vec::new()), Vec::<AbiAlignment>::new());
}

#[test]
fn class_names_keep_their_order() {
    let slices = vec!["one", "two", "", "two"];
    let owned = copy_strs(&slices);
    assert_eq!(owned, vec!["one".to_string(), "two".to_string(), String::new(), "two".to_string()]);
    assert!(strs_eq(&owned, &slices));
    assert!(!strs_eq(&owned, &vec!["one", "two", ""]));
    assert!(!strs_eq(&owned, &vec!["two", "one", "", "two"]));
    assert!(strs_eq(&Vec::new(), &Vec::new()));
    assert!(!strs_eq(&Vec::new(), &vec![""]));
}

#[test]
fn optional_text_is_copied_and_compared() {
    assert_eq!(copy_optional_str(Some("id")), Some("id".to_string()));
    assert_eq!(copy_optional_str(Some("")), Some(String::new()));
    assert_eq!(copy_optional_str(None), None);
    assert!(optional_str_eq(&Some("id".to_string()), &Some("id")));
    assert!(!optional_str_eq(&Some("id".to_string()), &Some("di")));
    assert!(!optional_str_eq(&Some(String::new()), &None));
    assert!(!optional_str_eq(&None, &Some("")));
    assert!(optional_str_eq(&None, &None));
}

#[test]
fn strings_are_compared_by_their_characters() {
    assert!(str_eq("", ""));
    assert!(str_eq("h\u{e9}", "h\u{e9}"));
    assert!(!str_eq("a", "b"));
    assert!(!str_eq("a", "ab"));
}

#[test]
fn every_event_converts_to_its_counterpart() {
    let native = native_events();
    let owned = owned_events();
    assert_eq!(native.len(), owned.len());
    for (n, o) in native.into_iter().zip(owned) {
        assert_eq!(AbiEvent::from(n), o);
    }
}

#[test]
fn an_event_agrees_with_its_counterpart_only() {
    let native = native_events();
    let owned = owned_events();
    for (i, o) in owned.iter().enumerate() {
        for (j, n) in native.iter().enumerate() {
            assert_eq!(o == n, i == j);
        }
    }
}

#[test]
fn event_text_is_copied_whatever_holds_it() {
    let borrowed = Event::Text(CowStr::Borrowed("caf\u{e9}"));
    let boxed = Event::Text(CowStr::Boxed("caf\u{e9}".to_string().into_boxed_str()));
    let inlined = Event::Text(CowStr::from('\u{e9}'));
    assert_eq!(AbiEvent::from(borrowed.clone()), AbiEvent::Text("caf\u{e9}".to_string()));
    assert_eq!(AbiEvent::from(boxed.clone()), AbiEvent::Text("caf\u{e9}".to_string()));
    assert_eq!(AbiEvent::from(inlined.clone()), AbiEvent::Text("\u{e9}".to_string()));
    assert!(AbiEvent::Text("caf\u{e9}".to_string()) == borrowed);
    assert!(AbiEvent::Text("caf\u{e9}".to_string()) == boxed);
    assert!(AbiEvent::Text("\u{e9}".to_string()) == inlined);
    assert!(AbiEvent::Text("cafe".to_string()) != borrowed);
    assert!(AbiEvent::Text(String::new()) != inlined);
}

#[test]
fn narrowing_keeps_both_bounds() {
    assert_eq!(Range::from(0..0), Range { start: 0, end: 0 });
    assert_eq!(Range::from(3..17), Range { start: 3, end: 17 });
    let top = u32::MAX as usize;
    assert_eq!(Range::from(top..top), Range { start: u32::MAX, end: u32::MAX });
    assert_eq!(Range::from(0..top), Range { start: 0, end: u32::MAX });
}

#[test]
fn widening_recovers_the_narrowed_range() {
    let top = u32::MAX as usize;
    for native in vec![0..0, 0..1, 5..9, 0..top, top - 1..top, top..top] {
        assert_eq!(Range::from(native.clone()).into(), native);
        assert_eq!(Range::try_from(native.clone()), Some(Range::from(native.clone())));
        assert!(Range::from(native.clone()) == native);
    }
}

#[test]
fn narrowing_the_widened_range_recovers_it() {
    for abi in vec![
        Range { start: 0, end: 0 },
        Range { start: 7, end: 8 },
        Range { start: 0, end: u32::MAX },
        Range { start: u32::MAX, end: u32::MAX },
    ] {
        assert_eq!(Range::from(abi.into()), abi);
    }
}

#[test]
fn a_range_beyond_32_bits_is_not_narrowed() {
    let top = u32::MAX as u64;
    let beyond = usize::try_from(top + 1);
    if let Ok(beyond) = beyond {
        assert_eq!(Range::try_from(0..beyond), None);
        assert_eq!(Range::try_from(beyond..beyond), None);
        assert_eq!(Range::try_from(beyond..0), None);
        assert!(Range { start: 0, end: 0 } != (0..beyond));
        assert!(Range { start: 0, end: 0 } != (beyond..0));
    }
    assert_eq!(Range::try_from(9..4), Some(Range { start: 9, end: 4 }));
}

#[test]
fn ranges_are_compared_bound_by_bound() {
    let abi = Range { start: 2, end: 5 };
    assert!(abi == (2..5));
    assert!(abi != (2..6));
    assert!(abi != (1..5));
    assert!(abi != (5..2));
}

#[test]
fn empty_options_hold_no_flag() {
    let empty = AbiOptions::empty();
    for (flag, _) in flags() {
        assert!(!empty.contains(flag));
    }
    assert_eq!(empty, options_of_subset(0));
    assert_eq!(empty.into(), Options::empty());
    assert_eq!(AbiOptions::from(Options::empty()), empty);
}

#[test]
fn inserting_a_flag_sets_that_flag_only() {
    for (i, (flag, _)) in flags().into_iter().enumerate() {
        for subset in 0..64u32 {
            let before = options_of_subset(subset);
            let mut after = before;
            after.insert(flag);
            assert_eq!(after, options_of_subset(subset | (1 << i)));
            for (other, _) in flags() {
                assert_eq!(after.contains(other), other == flag || before.contains(other));
            }
        }
    }
}

#[test]
fn each_flag_has_one_native_counterpart() {
    for (flag, native) in flags() {
        let mut abi = AbiOptions::empty();
        abi.insert(flag);
        assert_eq!(abi.into(), native);
        assert_eq!(AbiOptions::from(native), abi);
    }
}

#[test]
fn native_flags_survive_the_way_there_and_back() {
    let named = flags();
    for subset in 0..64u32 {
        let mut native = Options::empty();
        for (i, (_, flag)) in named.iter().enumerate() {
            if subset & (1 << i) != 0 {
                native.insert(*flag);
            }
        }
        let abi = AbiOptions::from(native);
        assert_eq!(abi, options_of_subset(subset));
        assert_eq!(abi.into(), native);
    }
}

#[test]
fn owned_flags_survive_the_way_there_and_back() {
    for subset in 0..64u32 {
        let abi = options_of_subset(subset);
        assert_eq!(AbiOptions::from(abi.into()), abi);
    }
    assert_eq!(options_of_subset(63).into(), Options::all());
}

#[test]
fn bits_that_name_no_flag_are_not_read() {
    let native = Options::from_bits_retain(1 | (1 << 3) | (1 << 7));
    let abi = AbiOptions::from(native);
    assert_eq!(abi, options_of_subset(4));
    assert_eq!(abi.into(), Options::ENABLE_STRIKETHROUGH);
}

#[test]
fn error_carries_the_message() {
    let error = Error::new("the sink is closed".to_string());
    assert_eq!(error.message, "the sink is closed");
    assert_eq!(error, Error { message: "the sink is closed".to_string() });
}

#[test]
fn error_from_a_writer_failure_has_its_description() {
    let failure = std::io::Error::new(std::io::ErrorKind::Other, "disk full");
    let expected = failure.to_string();
    assert_eq!(expected, "disk full");
    assert_eq!(Error::from(failure).message, expected);
}
