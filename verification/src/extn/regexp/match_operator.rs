//! `Regexp#=~`: match a text and publish what was found.
//!
//! A match attempt binds a fixed family of globals of the runtime: the match
//! itself, the text before and after it, and one global for each group. This
//! module decides which globals are bound to which values, and in which
//! order; binding them in the runtime is left to the caller.

use vstd::prelude::*;
use vstd::slice::slice_subrange;
use vstd::string::{StringExecFns, StringSliceAdditionalSpecFns};
use vstd::utf8::{encode_utf8, is_char_boundary};
use crate::convert::nilable::nilable_try_converts;
use crate::convert::{Convert, TryConvert};
use crate::extn::matchdata::{
    chars_before,
    chars_before_offset,
    check_spans,
    group,
    group_value,
    spans_fit,
    MatchData,
    Region,
};
use crate::extn::regexp::engine::{
    capture_names,
    captures,
    captures_view,
    engine_capture_names,
    engine_captures,
};
use crate::extn::regexp::Regexp;
use crate::value::types::Int;
use crate::value::{Dynamic, DynamicView};
use crate::{decimal, decimal_string, Artichoke};

verus! {

/// Why the match could not be attempted.
#[derive(Debug, Clone, Copy, Hash, PartialEq, Eq, Structural)]
pub enum Error {
    /// Something that should always hold did not.
    Fatal,
    /// The argument is neither text nor `nil`.
    NoImplicitConversionToString,
}

/// The text to match, if there is one.
#[derive(Debug, Clone, PartialEq, Eq)]
pub struct Args {
    pub string: Option<String>,
}

impl Args {
    /// Read the text to match from the argument of a call. `nil` stands for
    /// no text.
    pub fn extract(interp: &Artichoke, first: Dynamic) -> (r: Result<Self, Error>)
        ensures
            match r {
                Ok(args) => nilable_try_converts::<String>(first, Ok(args.string)),
                Err(e) => e == Error::NoImplicitConversionToString && exists|
                    failure: crate::convert::Error<crate::value::types::Ruby, crate::value::types::Rust>,
                |
                    nilable_try_converts::<String>(first, Err(failure)),
            },
    {
        match <Option<String> as TryConvert<Artichoke, Dynamic>>::try_convert(interp, first) {
            Ok(string) => Ok(Args { string }),
            Err(_) => Err(Error::NoImplicitConversionToString),
        }
    }
}

/// A global of the runtime that a match attempt binds.
#[derive(Debug, Clone, Copy, PartialEq, Eq, Structural)]
pub enum Global {
    /// `$&`, the text of the whole match.
    Match,
    /// `` $` ``, the text before the match.
    PreMatch,
    /// `$'`, the text after the match.
    PostMatch,
    /// `$1`, `$2` and so on: the text of the group of that number.
    Group(usize),
}

impl Global {
    /// The name of the global in the runtime.
    pub open spec fn name_spec(&self) -> Seq<char> {
        match self {
            Global::Match => "$&"@,
            Global::PreMatch => "$`"@,
            Global::PostMatch => "$'"@,
            Global::Group(number) => "$"@ + decimal(*number as nat),
        }
    }

    /// The name of the global in the runtime.
    pub fn name(&self) -> (r: String)
        ensures
            r@ == self.name_spec(),
    {
        match self {
            Global::Match => String::from_str("$&"),
            Global::PreMatch => String::from_str("$`"),
            Global::PostMatch => String::from_str("$'"),
            Global::Group(number) => {
                let digits = decimal_string(*number);
                String::from_str("$").concat(digits.as_str())
            },
        }
    }
}

/// What a match attempt publishes.
#[derive(Debug, PartialEq, Eq)]
pub struct Publication {
    /// The globals to bind, first to last, each with its value.
    pub globals: Vec<(Global, Dynamic)>,
    /// What to bind `$~` to, after all the others: a match result that was
    /// made for this attempt, or `nil` where this holds nothing.
    pub last_match: Option<MatchData>,
    /// What the operator returns.
    pub position: Dynamic,
}

/// Mathematical content of a [`Publication`], with the count of published
/// groups that the session holds afterwards.
pub struct PublicationView {
    pub globals: Seq<(Global, DynamicView)>,
    pub last_match: Option<(Seq<char>, Regexp, Region)>,
    pub position: DynamicView,
    pub num_set: usize,
}

/// The view of a list of bindings.
pub open spec fn bindings_view(globals: Seq<(Global, Dynamic)>) -> Seq<(Global, DynamicView)> {
    Seq::new(globals.len(), |i: int| (globals[i].0, globals[i].1@))
}

/// The view of a publication, together with the count that the session
/// holds after it.
pub open spec fn publication_view(publication: Publication, num_set: usize) -> PublicationView {
    PublicationView {
        globals: bindings_view(publication.globals@),
        last_match: match publication.last_match {
            Some(data) => Some((data.subject(), data.pattern(), data.span())),
            None => None,
        },
        position: publication.position@,
        num_set,
    }
}

/// The bindings of the first `count` numbered globals: `$&` for group 0 and
/// `$k` for each group `k` behind it, each bound to the value of its group,
/// which is `nil` where the match has no such group.
pub open spec fn numbered(bytes: Seq<u8>, groups: Seq<Option<(usize, usize)>>, count: nat) -> Seq<
    (Global, DynamicView),
> {
    Seq::new(
        count,
        |k: int|
            (
                if k == 0 {
                    Global::Match
                } else {
                    Global::Group(k as usize)
                },
                group_value(bytes, groups, k),
            ),
    )
}

/// The bindings of the text before and after the match.
pub open spec fn around(bytes: Seq<u8>, whole: (usize, usize)) -> Seq<(Global, DynamicView)> {
    seq![
        (Global::PreMatch, DynamicView::String(bytes.subrange(0, whole.0 as int))),
        (Global::PostMatch, DynamicView::String(bytes.subrange(whole.1 as int, bytes.len() as int))),
    ]
}

/// What an attempt without a text publishes: `$~`, the text before and the
/// text after are bound to `nil`, the numbered globals are not touched, and
/// the operator returns `nil`.
pub open spec fn nothing_to_match(previous: usize) -> PublicationView {
    PublicationView {
        globals: seq![
            (Global::PreMatch, DynamicView::Nil),
            (Global::PostMatch, DynamicView::Nil),
        ],
        last_match: None,
        position: DynamicView::Nil,
        num_set: previous,
    }
}

/// What a failed attempt publishes: `$~`, the text before and the text after
/// are bound to `nil`, the numbered globals are not touched, and the
/// operator returns `nil`.
pub open spec fn mismatch(previous: usize) -> PublicationView {
    PublicationView {
        globals: seq![
            (Global::PreMatch, DynamicView::Nil),
            (Global::PostMatch, DynamicView::Nil),
        ],
        last_match: None,
        position: DynamicView::Nil,
        num_set: previous,
    }
}

/// How many numbered globals a successful attempt binds: as many as the
/// match has groups, and as many as the attempt before it bound, whichever
/// is more, so that none of those keeps a value of the earlier match.
pub open spec fn bound_count(previous: usize, groups: nat) -> nat {
    if previous >= groups {
        previous as nat
    } else {
        groups
    }
}

/// What the operator returns for a match: the number of characters that
/// stand before it in the text, or `nil` if that number is no integer of the
/// runtime or the match has no whole.
pub open spec fn match_position(subject: Seq<char>, groups: Seq<Option<(usize, usize)>>) -> DynamicView {
    if groups.len() > 0 && groups[0] is Some {
        let start = chars_before(subject, groups[0].unwrap().0 as int);
        if start <= Int::MAX {
            DynamicView::Fixnum(start as Int)
        } else {
            DynamicView::Nil
        }
    } else {
        DynamicView::Nil
    }
}

/// What a successful attempt publishes.
pub open spec fn matched(
    previous: usize,
    subject: Seq<char>,
    regexp: Regexp,
    groups: Seq<Option<(usize, usize)>>,
) -> PublicationView {
    let bytes = encode_utf8(subject);
    let first = numbered(bytes, groups, bound_count(previous, groups.len()));
    PublicationView {
        globals: if groups.len() > 0 && groups[0] is Some {
            first + around(bytes, groups[0].unwrap())
        } else {
            first
        },
        last_match: Some((subject, regexp, Region { start: 0, end: bytes.len() as usize })),
        position: match_position(subject, groups),
        num_set: groups.len() as usize,
    }
}

/// A successful attempt leaves no numbered global with a value of an
/// earlier match: every global that the earlier attempt bound and for which
/// this match has no group is bound to `nil`.
pub proof fn stale_groups_are_reset(
    previous: usize,
    subject: Seq<char>,
    regexp: Regexp,
    groups: Seq<Option<(usize, usize)>>,
    number: usize,
)
    requires
        1 <= groups.len() <= number < previous,
    ensures
        number < matched(previous, subject, regexp, groups).globals.len(),
        matched(previous, subject, regexp, groups).globals[number as int] == (
            Global::Group(number),
            DynamicView::Nil,
        ),
{
}

/// Whether the whole match, if there is one, starts where a character
/// starts.
pub open spec fn whole_on_boundary(bytes: Seq<u8>, groups: Seq<Option<(usize, usize)>>) -> bool {
    groups.len() > 0 && groups[0] is Some ==> is_char_boundary(
        bytes,
        groups[0].unwrap().0 as int,
    )
}

/// What an attempt on `subject` publishes, given what the engine found.
pub open spec fn published(
    previous: usize,
    subject: Seq<char>,
    regexp: Regexp,
    found: Option<Option<Seq<Option<(usize, usize)>>>>,
) -> Result<PublicationView, Error> {
    match found {
        None => Err(Error::Fatal),
        Some(None) => Ok(mismatch(previous)),
        Some(Some(groups)) => if spans_fit(groups, encode_utf8(subject).len())
            && whole_on_boundary(encode_utf8(subject), groups) {
            Ok(matched(previous, subject, regexp, groups))
        } else {
            Err(Error::Fatal)
        },
    }
}

/// The view of the outcome of an attempt, together with the count that the
/// session holds after it.
pub open spec fn outcome_view(r: Result<Publication, Error>, num_set: usize) -> Result<
    PublicationView,
    Error,
> {
    match r {
        Ok(publication) => Ok(publication_view(publication, num_set)),
        Err(e) => Err(e),
    }
}

/// What is published where there is no match, for want of a text or because
/// the pattern matches nowhere in it: the text before and the text after
/// are bound to `nil`, as `$~` is, and the operator returns `nil`.
pub fn unmatched(interp: &Artichoke) -> (r: Publication)
    ensures
        bindings_view(r.globals@) == seq![
            (Global::PreMatch, DynamicView::Nil),
            (Global::PostMatch, DynamicView::Nil),
        ],
        r.last_match is None,
        r.position@ == DynamicView::Nil,
{
    let mut globals: Vec<(Global, Dynamic)> = Vec::new();
    globals.push(
        (Global::PreMatch, <Dynamic as Convert<Artichoke, Option<Dynamic>>>::convert(interp, None)),
    );
    globals.push(
        (Global::PostMatch, <Dynamic as Convert<Artichoke, Option<Dynamic>>>::convert(interp, None)),
    );
    let position = <Dynamic as Convert<Artichoke, Option<Dynamic>>>::convert(interp, None);
    proof {
        assert(bindings_view(globals@) =~= seq![
            (Global::PreMatch, DynamicView::Nil),
            (Global::PostMatch, DynamicView::Nil),
        ]);
    }
    Publication { globals, last_match: None, position }
}

/// Decide what an attempt on `string` publishes, given what the engine
/// found, and note in the session how many groups were published. A failure
/// leaves the session as it was.
pub fn publish(
    interp: &mut Artichoke,
    string: &str,
    regexp: &Regexp,
    found: Option<Option<Vec<Option<(usize, usize)>>>>,
) -> (r: Result<Publication, Error>)
    ensures
        outcome_view(r, final(interp).num_set_regexp_capture_globals) == published(
            old(interp).num_set_regexp_capture_globals,
            string@,
            *regexp,
            captures_view(found),
        ),
        r is Err ==> *final(interp) == *old(interp),
{
    let ghost bytes = encode_utf8(string@);
    let ghost previous = interp.num_set_regexp_capture_globals;
    let groups = match found {
        Some(Some(groups)) => groups,
        Some(None) => {
            return Ok(unmatched(interp));
        },
        None => {
            return Err(Error::Fatal);
        },
    };
    let length = string.as_bytes().len();
    if !check_spans(&groups, length) {
        return Err(Error::Fatal);
    }
    let count = groups.len();
    let whole = if count > 0 {
        groups[0]
    } else {
        None
    };
    let position = match whole {
        Some(span) => match chars_before_offset(string, span.0) {
            Some(start) => if start as u64 <= 0x7fff_ffff_ffff_ffff {
                <Dynamic as Convert<Artichoke, Int>>::convert(interp, start as Int)
            } else {
                <Dynamic as Convert<Artichoke, Option<Dynamic>>>::convert(interp, None)
            },
            None => {
                return Err(Error::Fatal);
            },
        },
        None => <Dynamic as Convert<Artichoke, Option<Dynamic>>>::convert(interp, None),
    };
    proof {
        vstd::utf8::encode_utf8_valid_utf8(string@);
        vstd::utf8::is_char_boundary_start_end_of_seq(bytes);
    }
    let last_match = match MatchData::new(string, regexp.duplicate(), 0, length) {
        Some(data) => data,
        None => {
            return Err(Error::Fatal);
        },
    };
    let num_regexp_globals_to_set = if interp.num_set_regexp_capture_globals >= count {
        interp.num_set_regexp_capture_globals
    } else {
        count
    };
    let mut globals: Vec<(Global, Dynamic)> = Vec::new();
    let mut index: usize = 0;
    while index < num_regexp_globals_to_set
        invariant
            index <= num_regexp_globals_to_set,
            bytes == encode_utf8(string@),
            spans_fit(groups@, bytes.len()),
            globals@.len() == index,
            bindings_view(globals@) =~= numbered(bytes, groups@, index as nat),
        decreases num_regexp_globals_to_set - index,
    {
        let global = if index == 0 {
            Global::Match
        } else {
            Global::Group(index)
        };
        let value = group(interp, string, &groups, index);
        let ghost before = globals@;
        globals.push((global, value));
        proof {
            assert forall|i: int| 0 <= i < index + 1 implies bindings_view(globals@)[i]
                == numbered(bytes, groups@, (index + 1) as nat)[i] by {
                if i < index {
                    assert(bindings_view(before)[i] == numbered(bytes, groups@, index as nat)[i]);
                }
            }
        }
        index += 1;
    }
    interp.num_set_regexp_capture_globals = count;
    match whole {
        Some(span) => {
            let all = string.as_bytes();
            let pre_match = <Dynamic as Convert<Artichoke, &[u8]>>::convert(
                interp,
                slice_subrange(all, 0, span.0),
            );
            let post_match = <Dynamic as Convert<Artichoke, &[u8]>>::convert(
                interp,
                slice_subrange(all, span.1, length),
            );
            globals.push((Global::PreMatch, pre_match));
            globals.push((Global::PostMatch, post_match));
            proof {
                assert(bindings_view(globals@) =~= numbered(
                    bytes,
                    groups@,
                    num_regexp_globals_to_set as nat,
                ) + around(bytes, span));
            }
        },
        None => {},
    }
    Ok(Publication { globals, last_match: Some(last_match), position })
}

/// What the operator publishes for a text that may be absent, given the
/// names and the match that the engine finds.
pub open spec fn operated(
    previous: usize,
    string: Option<Seq<char>>,
    regexp: Regexp,
    names: Option<Seq<Option<Seq<char>>>>,
    found: Option<Option<Seq<Option<(usize, usize)>>>>,
) -> Result<PublicationView, Error> {
    if names is None {
        Err(Error::Fatal)
    } else {
        match string {
            Some(subject) => published(previous, subject, regexp, found),
            None => Ok(nothing_to_match(previous)),
        }
    }
}

/// `Regexp#=~`: match the text against the pattern, from its start, and
/// decide what is published. A pattern that the engine does not take is
/// fatal, with or without a text.
pub fn method(interp: &mut Artichoke, args: Args, regexp: &Regexp) -> (r: Result<
    Publication,
    Error,
>)
    ensures
        outcome_view(r, final(interp).num_set_regexp_capture_globals) == operated(
            old(interp).num_set_regexp_capture_globals,
            match args.string {
                Some(string) => Some(string@),
                None => None,
            },
            *regexp,
            engine_capture_names(regexp.pattern@),
            match args.string {
                Some(string) => engine_captures(regexp.pattern@, string@),
                None => None,
            },
        ),
        r is Err ==> *final(interp) == *old(interp),
{
    let pattern = regexp.pattern.as_str();
    if capture_names(pattern).is_none() {
        return Err(Error::Fatal);
    }
    let string = match args.string {
        Some(string) => string,
        None => {
            return Ok(unmatched(interp));
        },
    };
    let found = captures(pattern, string.as_str());
    publish(interp, string.as_str(), regexp, found)
}

} // verus!
