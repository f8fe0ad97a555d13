use artichoke_core::extn::matchdata::{
    begin, captures, check_spans, chars_before_offset, element_reference, find_name, group,
    resolve_position, MatchData, Region,
};
use artichoke_core::extn::regexp::{Encoding, Options, Regexp};
use artichoke_core::value::Dynamic;
use artichoke_core::Artichoke;

fn text(s: &str) -> Dynamic {
    Dynamic::String(s.as_bytes().to_vec())
}

fn matched(pattern: &str, subject: &str, start: usize, end: usize) -> MatchData {
    let regexp = Regexp::new(pattern, Options { flags: 0 }, Encoding::Unset);
    MatchData::new(subject, regexp, start, end).expect("region")
}

#[test]
fn region_must_fit() {
    let regexp = Regexp::new("a", Options { flags: 0 }, Encoding::Unset);
    assert!(MatchData::new("xaby", regexp.clone(), 0, 4).is_some());
    assert!(MatchData::new("xaby", regexp.clone(), 2, 2).is_some());
    assert!(MatchData::new("xaby", regexp.clone(), 3, 2).is_none());
    assert!(MatchData::new("xaby", regexp.clone(), 0, 5).is_none());
    // neither end may cut a character in two
    assert!(MatchData::new("éa", regexp.clone(), 1, 3).is_none());
    assert!(MatchData::new("éa", regexp.clone(), 0, 1).is_none());
    let data = MatchData::new("éa", regexp.clone(), 2, 3).expect("region");
    assert_eq!(data.match_against(), "a");
    assert_eq!(data.string(), "éa");
    assert_eq!(data.region(), Region { start: 2, end: 3 });
    assert_eq!(data.regexp(), &regexp);
}

#[test]
fn begin_of_group() {
    let interp = Artichoke::new();
    let data = matched("(a)(b)", "xaby", 0, 4);
    assert_eq!(
        begin::method(&interp, begin::Args::Index(1), &data),
        Ok(Dynamic::Fixnum(1))
    );
    assert_eq!(
        begin::method(&interp, begin::Args::Index(2), &data),
        Ok(Dynamic::Fixnum(2))
    );
    assert_eq!(
        begin::method(&interp, begin::Args::Index(0), &data),
        Ok(Dynamic::Fixnum(1))
    );
    assert_eq!(
        begin::method(&interp, begin::Args::Index(-1), &data),
        Ok(Dynamic::Fixnum(2))
    );
    assert_eq!(
        begin::method(&interp, begin::Args::Index(-3), &data),
        Ok(Dynamic::Fixnum(1))
    );
}

#[test]
fn begin_counts_characters() {
    let interp = Artichoke::new();
    // the region starts behind two characters of two bytes each
    let data = matched("(z)", "ééxüz", 4, 8);
    assert_eq!(data.match_against(), "xüz");
    assert_eq!(
        begin::method(&interp, begin::Args::Index(1), &data),
        Ok(Dynamic::Fixnum(4))
    );
}

#[test]
fn begin_failures() {
    let interp = Artichoke::new();
    let data = matched("(a)(b)(c)?", "xaby", 0, 4);
    // an index that reaches back beyond the first group
    assert_eq!(
        begin::method(&interp, begin::Args::Index(-5), &data),
        Err(begin::Error::Fatal)
    );
    assert_eq!(
        begin::method(&interp, begin::Args::Index(i64::MIN), &data),
        Err(begin::Error::Fatal)
    );
    // a group that took no part, and an index behind the last group
    assert_eq!(
        begin::method(&interp, begin::Args::Index(3), &data),
        Err(begin::Error::NoMatch)
    );
    assert_eq!(
        begin::method(&interp, begin::Args::Index(4), &data),
        Err(begin::Error::NoMatch)
    );
    assert_eq!(
        begin::method(&interp, begin::Args::Index(i64::MAX), &data),
        Err(begin::Error::NoMatch)
    );
    assert_eq!(
        begin::method(&interp, begin::Args::Name(String::from("y")), &data),
        Err(begin::Error::NoGroup)
    );
    let nowhere = matched("q", "xaby", 0, 4);
    assert_eq!(
        begin::method(&interp, begin::Args::Index(0), &nowhere),
        Err(begin::Error::NoMatch)
    );
    let broken = matched("(a", "xaby", 0, 4);
    assert_eq!(
        begin::method(&interp, begin::Args::Index(0), &broken),
        Err(begin::Error::Fatal)
    );
}

#[test]
fn begin_by_name() {
    let interp = Artichoke::new();
    let data = matched("(?P<first>a)(?P<second>b)", "xxab", 0, 4);
    assert_eq!(
        begin::method(&interp, begin::Args::Name(String::from("second")), &data),
        Ok(Dynamic::Fixnum(3))
    );
    assert_eq!(
        begin::method(&interp, begin::Args::Name(String::from("first")), &data),
        Ok(Dynamic::Fixnum(2))
    );
}

#[test]
fn begin_extracts_address() {
    let interp = Artichoke::new();
    assert_eq!(
        begin::Args::extract(&interp, Dynamic::Fixnum(2), None),
        Ok(begin::Args::Index(2))
    );
    assert_eq!(
        begin::Args::extract(&interp, text("name"), None),
        Ok(begin::Args::Name(String::from("name")))
    );
    assert_eq!(
        begin::Args::extract(&interp, Dynamic::Float(artichoke_core::value::types::Float::from_bits(0)), Some(7)),
        Ok(begin::Args::Index(7))
    );
    assert_eq!(
        begin::Args::extract(&interp, Dynamic::Object, None),
        Err(begin::Error::IndexType)
    );
    // text that is no UTF-8 is no name
    assert_eq!(
        begin::Args::extract(&interp, Dynamic::String(vec![0xff]), None),
        Err(begin::Error::IndexType)
    );
}

#[test]
fn element_reference_by_range() {
    let interp = Artichoke::new();
    let data = matched("(a)(b)", "xaby", 0, 4);
    assert_eq!(
        element_reference::method(&interp, element_reference::Args::StartLen(0, 3), &data),
        Ok(Dynamic::Array(vec![text("ab"), text("a"), text("b")]))
    );
    // positions behind the last group hold nil
    assert_eq!(
        element_reference::method(&interp, element_reference::Args::StartLen(2, 3), &data),
        Ok(Dynamic::Array(vec![text("b"), Dynamic::Nil, Dynamic::Nil]))
    );
    assert_eq!(
        element_reference::method(&interp, element_reference::Args::StartLen(-2, 2), &data),
        Ok(Dynamic::Array(vec![text("a"), text("b")]))
    );
    assert_eq!(
        element_reference::method(&interp, element_reference::Args::StartLen(9, 0), &data),
        Ok(Dynamic::Array(vec![]))
    );
    assert_eq!(
        element_reference::method(&interp, element_reference::Args::StartLen(i64::MAX, 2), &data),
        Ok(Dynamic::Array(vec![Dynamic::Nil, Dynamic::Nil]))
    );
    assert_eq!(
        element_reference::method(&interp, element_reference::Args::StartLen(-4, 1), &data),
        Err(element_reference::Error::Fatal)
    );
}

#[test]
fn element_reference_by_index() {
    let interp = Artichoke::new();
    let data = matched("(a)(b)(c)?", "xaby", 0, 4);
    let at = |index| element_reference::method(&interp, element_reference::Args::Index(index), &data);
    assert_eq!(at(0), Ok(text("ab")));
    assert_eq!(at(1), Ok(text("a")));
    assert_eq!(at(2), Ok(text("b")));
    assert_eq!(at(3), Ok(Dynamic::Nil));
    assert_eq!(at(4), Ok(Dynamic::Nil));
    assert_eq!(at(i64::MAX), Ok(Dynamic::Nil));
    // with four groups, -1 is 3 and -2 is 2
    assert_eq!(at(-1), Ok(Dynamic::Nil));
    assert_eq!(at(-2), Ok(text("b")));
    assert_eq!(at(-3), Ok(text("a")));
    assert_eq!(at(-4), Ok(text("ab")));
    // and -5 is out of range
    assert_eq!(at(-5), Ok(Dynamic::Nil));
    assert_eq!(at(i64::MIN), Ok(Dynamic::Nil));
}

#[test]
fn element_reference_negative_index() {
    let interp = Artichoke::new();
    let data = matched("(a)(b)", "xaby", 0, 4);
    let n = 3;
    let last = element_reference::method(&interp, element_reference::Args::Index(-1), &data);
    assert_eq!(
        last,
        element_reference::method(&interp, element_reference::Args::Index(n - 1), &data)
    );
    assert_eq!(last, Ok(text("b")));
    assert_eq!(
        element_reference::method(&interp, element_reference::Args::Index(-(n + 1)), &data),
        Ok(Dynamic::Nil)
    );
}

#[test]
fn element_reference_by_name() {
    let interp = Artichoke::new();
    let data = matched("(?P<x>a)", "xaby", 0, 4);
    assert_eq!(
        element_reference::method(
            &interp,
            element_reference::Args::Name(String::from("y")),
            &data
        ),
        Err(element_reference::Error::NoGroup(String::from("y")))
    );
    assert_eq!(
        element_reference::method(
            &interp,
            element_reference::Args::Name(String::from("x")),
            &data
        ),
        Ok(text("a"))
    );
}

#[test]
fn element_reference_failures() {
    let interp = Artichoke::new();
    let nowhere = matched("q", "xaby", 0, 4);
    assert_eq!(
        element_reference::method(&interp, element_reference::Args::Index(0), &nowhere),
        Err(element_reference::Error::NoMatch)
    );
    let broken = matched("(a", "xaby", 0, 4);
    assert_eq!(
        element_reference::method(&interp, element_reference::Args::Index(0), &broken),
        Err(element_reference::Error::Fatal)
    );
    // the pattern is matched in the region alone
    let part = matched("(a)(b)", "xaby", 2, 4);
    assert_eq!(
        element_reference::method(&interp, element_reference::Args::Index(0), &part),
        Err(element_reference::Error::NoMatch)
    );
    let part = matched("(b)", "xaby", 2, 4);
    assert_eq!(
        element_reference::method(&interp, element_reference::Args::Index(1), &part),
        Ok(text("b"))
    );
}

#[test]
fn element_reference_extracts_address() {
    let interp = Artichoke::new();
    let extract = element_reference::Args::extract;
    assert_eq!(
        extract(&interp, Dynamic::Fixnum(-1), None, None, 2),
        Ok(element_reference::Args::Index(-1))
    );
    assert_eq!(
        extract(&interp, text("x"), None, None, 2),
        Ok(element_reference::Args::Name(String::from("x")))
    );
    assert_eq!(
        extract(&interp, Dynamic::Fixnum(1), Some(Dynamic::Fixnum(2)), None, 2),
        Ok(element_reference::Args::StartLen(1, 2))
    );
    assert_eq!(
        extract(&interp, text("x"), Some(Dynamic::Fixnum(2)), None, 2),
        Err(element_reference::Error::IndexType)
    );
    assert_eq!(
        extract(&interp, Dynamic::Fixnum(1), Some(Dynamic::Fixnum(-2)), None, 2),
        Err(element_reference::Error::LengthType)
    );
    assert_eq!(
        extract(&interp, Dynamic::Fixnum(1), Some(Dynamic::Nil), None, 2),
        Err(element_reference::Error::LengthType)
    );
    assert_eq!(
        extract(&interp, Dynamic::Range, None, Some((1, 2)), 2),
        Ok(element_reference::Args::StartLen(1, 2))
    );
    assert_eq!(
        extract(&interp, Dynamic::Range, None, Some((1, -2)), 2),
        Err(element_reference::Error::LengthType)
    );
    assert_eq!(
        extract(&interp, Dynamic::Range, None, None, 2),
        Err(element_reference::Error::IndexType)
    );
    assert_eq!(
        extract(&interp, Dynamic::Object, None, None, 2),
        Err(element_reference::Error::IndexType)
    );
    assert_eq!(
        extract(&interp, Dynamic::Fixnum(0), None, None, usize::MAX),
        Err(element_reference::Error::Fatal)
    );
    assert_eq!(
        element_reference::Args::is_range(Some((-3, 4))),
        Ok(Some(element_reference::Args::StartLen(-3, 4)))
    );
    assert_eq!(element_reference::Args::is_range(None), Ok(None));
}

#[test]
fn runtime_is_asked_only_where_needed() {
    let float = || Dynamic::Float(artichoke_core::value::types::Float::from_bits(0));
    assert!(!begin::needs_to_int(&Dynamic::Fixnum(1)));
    assert!(!begin::needs_to_int(&text("a")));
    assert!(begin::needs_to_int(&float()));
    assert!(begin::needs_to_int(&Dynamic::Nil));
    // text that is no UTF-8 is no name
    assert!(begin::needs_to_int(&Dynamic::String(vec![0xff])));
    assert!(!element_reference::needs_range(&Dynamic::Fixnum(1), &None));
    assert!(!element_reference::needs_range(&text("a"), &None));
    assert!(element_reference::needs_range(&Dynamic::Range, &None));
    assert!(element_reference::needs_range(&Dynamic::String(vec![0xc0]), &None));
    assert!(!element_reference::needs_range(&Dynamic::Range, &Some(Dynamic::Fixnum(1))));
    assert_eq!(element_reference::range_length(0), Some(1));
    assert_eq!(element_reference::range_length(2), Some(3));
    assert_eq!(
        element_reference::range_length(i64::MAX as usize - 1),
        Some(i64::MAX)
    );
    assert_eq!(element_reference::range_length(i64::MAX as usize), None);
    assert_eq!(element_reference::range_length(usize::MAX), None);
}

#[test]
fn resolve_takes_any_groups() {
    let interp = Artichoke::new();
    let groups = vec![Some((1, 3)), None, Some((2, 3))];
    let names = Some(vec![None, Some(String::from("n")), Some(String::from("n"))]);
    assert_eq!(
        element_reference::resolve(
            &interp,
            element_reference::Args::Name(String::from("n")),
            "xaby",
            &groups,
            &names
        ),
        Ok(Dynamic::Nil)
    );
    assert_eq!(
        element_reference::resolve(
            &interp,
            element_reference::Args::Name(String::from("n")),
            "xaby",
            &groups,
            &None
        ),
        Err(element_reference::Error::Fatal)
    );
    assert_eq!(
        element_reference::resolve(
            &interp,
            element_reference::Args::StartLen(1, 2),
            "xaby",
            &groups,
            &None
        ),
        Ok(Dynamic::Array(vec![Dynamic::Nil, text("b")]))
    );
    // groups that lie outside the text
    assert_eq!(
        element_reference::resolve(
            &interp,
            element_reference::Args::Index(0),
            "xaby",
            &vec![Some((0, 4)), Some((4, 5))],
            &None
        ),
        Err(element_reference::Error::Fatal)
    );
    assert_eq!(
        element_reference::resolve(
            &interp,
            element_reference::Args::Index(0),
            "xaby",
            &vec![Some((3, 2))],
            &None
        ),
        Err(element_reference::Error::Fatal)
    );
}

#[test]
fn captures_leave_out_the_whole_match() {
    let interp = Artichoke::new();
    let data = matched("(a)(b)(c)?", "xaby", 0, 4);
    assert_eq!(
        captures::method(&interp, &data),
        Ok(Dynamic::Array(vec![text("a"), text("b"), Dynamic::Nil]))
    );
    let none = matched("ab", "xaby", 0, 4);
    assert_eq!(captures::method(&interp, &none), Ok(Dynamic::Array(vec![])));
    let nowhere = matched("q", "xaby", 0, 4);
    assert_eq!(
        captures::method(&interp, &nowhere),
        Err(captures::Error::NoMatch)
    );
    let broken = matched("a)", "xaby", 0, 4);
    assert_eq!(captures::method(&interp, &broken), Err(captures::Error::Fatal));
    assert_eq!(
        captures::list(&interp, "xaby", &vec![]),
        Ok(Dynamic::Array(vec![]))
    );
    assert_eq!(
        captures::list(&interp, "xaby", &vec![Some((0, 4)), Some((3, 4)), None]),
        Ok(Dynamic::Array(vec![text("y"), Dynamic::Nil]))
    );
    assert_eq!(
        captures::list(&interp, "xaby", &vec![Some((0, 4)), Some((3, 5))]),
        Err(captures::Error::Fatal)
    );
}

#[test]
fn helpers_on_plain_values() {
    let interp = Artichoke::new();
    assert_eq!(resolve_position(3, 0), Some(0));
    assert_eq!(resolve_position(3, 7), Some(7));
    assert_eq!(resolve_position(3, -1), Some(2));
    assert_eq!(resolve_position(3, -3), Some(0));
    assert_eq!(resolve_position(3, -4), None);
    assert_eq!(resolve_position(0, -1), None);
    assert_eq!(resolve_position(3, i64::MIN), None);
    assert!(check_spans(&vec![Some((0, 4)), None, Some((4, 4))], 4));
    assert!(!check_spans(&vec![Some((0, 5))], 4));
    assert!(!check_spans(&vec![None, Some((3, 2))], 4));
    assert_eq!(chars_before_offset("éa", 0), Some(0));
    assert_eq!(chars_before_offset("éa", 2), Some(1));
    assert_eq!(chars_before_offset("éa", 3), Some(2));
    assert_eq!(chars_before_offset("éa", 1), None);
    assert_eq!(chars_before_offset("éa", 4), None);
    let names = vec![None, Some(String::from("a")), Some(String::from("b")), Some(String::from("a"))];
    assert_eq!(find_name(&names, &String::from("a")), Some(1));
    assert_eq!(find_name(&names, &String::from("b")), Some(2));
    assert_eq!(find_name(&names, &String::from("c")), None);
    let groups = vec![Some((1, 3)), None];
    assert_eq!(group(&interp, "xaby", &groups, 0), text("ab"));
    assert_eq!(group(&interp, "xaby", &groups, 1), Dynamic::Nil);
    assert_eq!(group(&interp, "xaby", &groups, 2), Dynamic::Nil);
}
