//! Results of a match, and their captures.
//!
//! A match result keeps the text that was searched, the pattern, and the
//! region of the text in which the pattern is matched again whenever its
//! captures are asked for.

pub mod begin;
pub mod captures;
pub mod element_reference;

use vstd::prelude::*;
use vstd::slice::slice_subrange;
use vstd::string::{StrSliceExecFns, StringSliceAdditionalSpecFns};
use vstd::utf8::{decode_utf8, encode_utf8, is_char_boundary, valid_utf8};
use crate::convert::Convert;
use crate::extn::regexp::Regexp;
use crate::value::types::Int;
use crate::value::{Dynamic, DynamicView};
use crate::Artichoke;

verus! {

/// A range of byte offsets into a text, the end not included.
#[derive(Clone, Copy, Debug, PartialEq, Eq, Structural)]
pub struct Region {
    pub start: usize,
    pub end: usize,
}

/// Whether the region lies within the text and neither of its ends cuts a
/// character in two.
pub open spec fn region_fits(subject: Seq<char>, region: Region) -> bool {
    let bytes = encode_utf8(subject);
    &&& region.start <= region.end <= bytes.len()
    &&& is_char_boundary(bytes, region.start as int)
    &&& is_char_boundary(bytes, region.end as int)
}

/// The part of the text that the region covers.
pub open spec fn region_text(subject: Seq<char>, region: Region) -> Seq<char> {
    decode_utf8(encode_utf8(subject).subrange(region.start as int, region.end as int))
}

/// How many characters of the text stand before the byte offset `at`.
pub open spec fn chars_before(subject: Seq<char>, at: int) -> nat {
    decode_utf8(encode_utf8(subject).subrange(0, at)).len()
}

/// Whether every group that took part in the match lies within a text of
/// `len` bytes.
pub open spec fn spans_fit(groups: Seq<Option<(usize, usize)>>, len: nat) -> bool {
    forall|i: int|
        0 <= i < groups.len() ==> match #[trigger] groups[i] {
            Some(span) => span.0 <= span.1 <= len,
            None => true,
        }
}

/// The value of the group at `index`, given the bytes of the text that was
/// searched: the bytes that the group matched, or `nil` for a group that took
/// no part in the match and for an index that is no group's.
pub open spec fn group_value(
    bytes: Seq<u8>,
    groups: Seq<Option<(usize, usize)>>,
    index: int,
) -> DynamicView {
    if 0 <= index < groups.len() {
        match groups[index] {
            Some(span) => DynamicView::String(bytes.subrange(span.0 as int, span.1 as int)),
            None => DynamicView::Nil,
        }
    } else {
        DynamicView::Nil
    }
}

/// The position that an index addresses among `count` groups. An index that
/// is not negative is the position. A negative index counts back from the
/// end, `-1` being the last group, and addresses nothing if it reaches back
/// beyond the first.
pub open spec fn position(count: nat, index: int) -> Option<nat> {
    if index >= 0 {
        Some(index as nat)
    } else if count + index >= 0 {
        Some((count + index) as nat)
    } else {
        None
    }
}

/// Among `count` groups, of which there is at least one, the index `-1`
/// addresses the group that the index `count - 1` addresses, the last one. The
/// index `-(count + 1)` addresses nothing, for any `count`.
pub proof fn negative_index_addresses(count: nat)
    ensures
        count >= 1 ==> position(count, -1) == position(count, count - 1),
        position(count, -1) == if count >= 1 {
            Some((count - 1) as nat)
        } else {
            None
        },
        position(count, -(count + 1)) is None,
{
}

/// The position of the first group that carries the given name.
pub open spec fn name_position(names: Seq<Option<Seq<char>>>, name: Seq<char>) -> Option<nat>
    decreases names.len(),
{
    if names.len() == 0 {
        None
    } else {
        match name_position(names.drop_last(), name) {
            Some(i) => Some(i),
            None => if names.last() == Some(name) {
                Some((names.len() - 1) as nat)
            } else {
                None
            },
        }
    }
}

/// The result of one match: the text that was searched, the pattern, and the
/// region of the text that the match was made in.
#[derive(Debug, PartialEq, Eq)]
pub struct MatchData {
    string: String,
    regexp: Regexp,
    region: Region,
}

impl MatchData {
    #[verifier::type_invariant]
    pub closed spec fn valid(&self) -> bool {
        region_fits(self.string@, self.region)
    }

    /// The text that was searched.
    pub closed spec fn subject(&self) -> Seq<char> {
        self.string@
    }

    /// The pattern.
    pub closed spec fn pattern(&self) -> Regexp {
        self.regexp
    }

    /// The region of the text that the match was made in.
    pub closed spec fn span(&self) -> Region {
        self.region
    }

    /// The text of the region.
    pub open spec fn text(&self) -> Seq<char> {
        region_text(self.subject(), self.span())
    }

    /// A match result for the region from `start` to `end` of `string`, if
    /// that region lies within the text and cuts no character in two.
    pub fn new(string: &str, regexp: Regexp, start: usize, end: usize) -> (r: Option<Self>)
        ensures
            r is Some <==> region_fits(string@, Region { start, end }),
            r matches Some(data) ==> {
                &&& data.subject() == string@
                &&& data.pattern() == regexp
                &&& data.span() == Region { start, end }
            },
    {
        proof {
            vstd::utf8::encode_utf8_valid_utf8(string@);
        }
        if start > end || end > string.as_bytes().len() {
            return None;
        }
        let start_on_boundary = string.is_char_boundary(start);
        let end_on_boundary = string.is_char_boundary(end);
        if start_on_boundary && end_on_boundary {
            Some(MatchData { string: string.to_owned(), regexp, region: Region { start, end } })
        } else {
            None
        }
    }

    /// The text that was searched.
    pub fn string(&self) -> (r: &str)
        ensures
            r@ == self.subject(),
    {
        self.string.as_str()
    }

    /// The pattern.
    pub fn regexp(&self) -> (r: &Regexp)
        ensures
            *r == self.pattern(),
    {
        &self.regexp
    }

    /// The region of the text that the match was made in.
    pub fn region(&self) -> (r: Region)
        ensures
            r == self.span(),
            region_fits(self.subject(), r),
    {
        proof {
            use_type_invariant(self);
        }
        self.region
    }

    /// The text of the region: what the pattern is matched against.
    pub fn match_against(&self) -> (r: &str)
        ensures
            r@ == self.text(),
            r.spec_bytes() == encode_utf8(self.subject()).subrange(
                self.span().start as int,
                self.span().end as int,
            ),
    {
        proof {
            use_type_invariant(self);
        }
        let whole = self.string.as_str();
        let ghost bytes = whole.spec_bytes();
        let (head, _) = whole.split_at(self.region.end);
        proof {
            vstd::utf8::encode_utf8_valid_utf8(whole@);
            boundary_in_prefix(bytes, self.region.start as int, self.region.end as int);
        }
        let (_, text) = head.split_at(self.region.start);
        proof {
            assert(text.spec_bytes() =~= bytes.subrange(
                self.region.start as int,
                self.region.end as int,
            ));
            vstd::utf8::encode_utf8_decode_utf8(text@);
        }
        text
    }
}

/// A character boundary of a text is a character boundary of each prefix of
/// the text that ends at a character boundary behind it.
pub proof fn boundary_in_prefix(bytes: Seq<u8>, at: int, end: int)
    requires
        valid_utf8(bytes),
        0 <= at <= end <= bytes.len(),
        is_char_boundary(bytes, at),
        is_char_boundary(bytes, end),
    ensures
        valid_utf8(bytes.subrange(0, end)),
        is_char_boundary(bytes.subrange(0, end), at),
{
    let prefix = bytes.subrange(0, end);
    vstd::utf8::valid_utf8_split(bytes, end);
    if at == end {
        vstd::utf8::is_char_boundary_start_end_of_seq(prefix);
    } else {
        vstd::utf8::is_char_boundary_iff_not_is_continuation_byte(bytes, at);
        vstd::utf8::is_char_boundary_iff_not_is_continuation_byte(prefix, at);
    }
}

/// How many characters of `text` stand before the byte offset `at`, if that
/// offset lies within the text and cuts no character in two.
pub fn chars_before_offset(text: &str, at: usize) -> (r: Option<usize>)
    ensures
        r is Some <==> at <= text.spec_bytes().len() && is_char_boundary(
            text.spec_bytes(),
            at as int,
        ),
        r matches Some(count) ==> count == chars_before(text@, at as int),
{
    proof {
        vstd::utf8::encode_utf8_valid_utf8(text@);
    }
    if at > text.as_bytes().len() {
        return None;
    }
    let on_boundary = text.is_char_boundary(at);
    if on_boundary {
        let (head, _) = text.split_at(at);
        proof {
            vstd::utf8::encode_utf8_decode_utf8(head@);
        }
        Some(head.unicode_len())
    } else {
        None
    }
}

/// Whether every group that took part in the match lies within a text of
/// `len` bytes.
pub fn check_spans(groups: &Vec<Option<(usize, usize)>>, len: usize) -> (r: bool)
    ensures
        r == spans_fit(groups@, len as nat),
{
    let mut i: usize = 0;
    while i < groups.len()
        invariant
            i <= groups.len(),
            spans_fit(groups@.take(i as int), len as nat),
        decreases groups.len() - i,
    {
        match groups[i] {
            Some(span) => {
                if !(span.0 <= span.1 && span.1 <= len) {
                    return false;
                }
            },
            None => {},
        }
        proof {
            assert forall|j: int| 0 <= j < groups@.take(i + 1).len() implies match #[trigger] groups@.take(
                i + 1,
            )[j] {
                Some(span) => span.0 <= span.1 <= len,
                None => true,
            } by {
                if j < i {
                    assert(groups@.take(i as int)[j] == groups@[j]);
                }
            }
        }
        i += 1;
    }
    proof {
        assert(groups@.take(i as int) =~= groups@);
    }
    true
}

/// The value of the group at `index`.
pub fn group(
    interp: &Artichoke,
    haystack: &str,
    groups: &Vec<Option<(usize, usize)>>,
    index: usize,
) -> (r: Dynamic)
    requires
        spans_fit(groups@, haystack.spec_bytes().len()),
    ensures
        r@ == group_value(haystack.spec_bytes(), groups@, index as int),
{
    if index < groups.len() {
        match groups[index] {
            Some(span) => {
                let bytes = slice_subrange(haystack.as_bytes(), span.0, span.1);
                <Dynamic as Convert<Artichoke, &[u8]>>::convert(interp, bytes)
            },
            None => <Dynamic as Convert<Artichoke, Option<Dynamic>>>::convert(interp, None),
        }
    } else {
        <Dynamic as Convert<Artichoke, Option<Dynamic>>>::convert(interp, None)
    }
}

/// The position that `index` addresses among `count` groups, cut down to the
/// largest size of the host where it lies beyond.
pub fn resolve_position(count: usize, index: Int) -> (r: Option<usize>)
    ensures
        match position(count as nat, index as int) {
            Some(p) => r == Some(
                if p <= usize::MAX {
                    p as usize
                } else {
                    usize::MAX
                },
            ),
            None => r is None,
        },
{
    if index >= 0 {
        match usize::try_from(index) {
            Ok(p) => Some(p),
            Err(_) => Some(usize::MAX),
        }
    } else {
        let back: u64 = ((-(index + 1)) as u64) + 1;
        match usize::try_from(back) {
            Ok(back) => if back <= count {
                Some(count - back)
            } else {
                None
            },
            Err(_) => None,
        }
    }
}

/// The position of the first group that carries the given name.
pub fn find_name(names: &Vec<Option<String>>, name: &String) -> (r: Option<usize>)
    ensures
        match name_position(crate::extn::regexp::engine::names_view(names@), name@) {
            Some(p) => p < names@.len() <= usize::MAX && r == Some(p as usize),
            None => r is None,
        },
{
    let ghost all = crate::extn::regexp::engine::names_view(names@);
    let mut i: usize = 0;
    while i < names.len()
        invariant
            i <= names.len(),
            all == crate::extn::regexp::engine::names_view(names@),
            name_position(all.take(i as int), name@) is None,
        decreases names.len() - i,
    {
        proof {
            assert(all.take(i + 1).drop_last() =~= all.take(i as int));
            assert(all.take(i + 1).last() == all[i as int]);
        }
        let found = match &names[i] {
            Some(candidate) => *candidate == *name,
            None => false,
        };
        if found {
            proof {
                found_stays(all, name@, i as int + 1);
            }
            return Some(i);
        }
        i += 1;
    }
    proof {
        assert(all.take(i as int) =~= all);
    }
    None
}

/// A name that was found among the first `upto` names is found at the same
/// position among all of them.
pub proof fn found_stays(names: Seq<Option<Seq<char>>>, name: Seq<char>, upto: int)
    requires
        0 <= upto <= names.len(),
        name_position(names.take(upto), name) is Some,
    ensures
        name_position(names, name) == name_position(names.take(upto), name),
    decreases names.len() - upto,
{
    if upto < names.len() {
        assert(names.take(upto + 1).drop_last() =~= names.take(upto));
        found_stays(names, name, upto + 1);
    } else {
        assert(names.take(upto) =~= names);
    }
}

} // verus!
