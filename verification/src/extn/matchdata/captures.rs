//! `MatchData#captures`: the text of every group but the whole match.

use vstd::prelude::*;
use vstd::utf8::encode_utf8;
use crate::convert::Convert;
use crate::extn::matchdata::{check_spans, group, group_value, spans_fit, MatchData};
use crate::extn::regexp::engine::{captures, engine_captures};
use crate::value::{Dynamic, DynamicView};
use crate::Artichoke;

verus! {

/// Why the groups could not be listed.
#[derive(Debug, Clone, Copy, Hash, PartialEq, Eq, Structural)]
pub enum Error {
    /// Something that should always hold did not.
    Fatal,
    /// The pattern does not match.
    NoMatch,
}

/// The view of an outcome that holds a dynamic value.
pub open spec fn value_view(r: Result<Dynamic, Error>) -> Result<DynamicView, Error> {
    match r {
        Ok(value) => Ok(value@),
        Err(e) => Err(e),
    }
}

/// The values of the groups from the first on, in the order in which the
/// pattern declares them. Group 0, the whole match, is left out.
pub open spec fn listed(bytes: Seq<u8>, groups: Seq<Option<(usize, usize)>>) -> Seq<DynamicView> {
    Seq::new(
        if groups.len() > 0 {
            (groups.len() - 1) as nat
        } else {
            0
        },
        |k: int| group_value(bytes, groups, k + 1),
    )
}

/// The list of the groups of a match: an array of their values. Groups that
/// do not lie within the text are fatal.
pub open spec fn list_of(bytes: Seq<u8>, groups: Seq<Option<(usize, usize)>>) -> Result<
    DynamicView,
    Error,
> {
    if spans_fit(groups, bytes.len()) {
        Ok(DynamicView::Array(listed(bytes, groups)))
    } else {
        Err(Error::Fatal)
    }
}

/// The list of the groups, given what the engine found.
pub open spec fn captured(
    bytes: Seq<u8>,
    found: Option<Option<Seq<Option<(usize, usize)>>>>,
) -> Result<DynamicView, Error> {
    match found {
        None => Err(Error::Fatal),
        Some(None) => Err(Error::NoMatch),
        Some(Some(groups)) => list_of(bytes, groups),
    }
}

/// List the values of the groups of a match, the whole match left out.
pub fn list(interp: &Artichoke, haystack: &str, groups: &Vec<Option<(usize, usize)>>) -> (r:
    Result<Dynamic, Error>)
    ensures
        value_view(r) == list_of(encode_utf8(haystack@), groups@),
{
    let ghost bytes = encode_utf8(haystack@);
    if !check_spans(groups, haystack.as_bytes().len()) {
        return Err(Error::Fatal);
    }
    let count = groups.len();
    let mut values: Vec<Dynamic> = Vec::new();
    let mut index: usize = 1;
    while index < count
        invariant
            1 <= index,
            count == groups@.len(),
            bytes == encode_utf8(haystack@),
            spans_fit(groups@, bytes.len()),
            values@.len() == index - 1,
            index <= count || index == 1,
            forall|j: int|
                0 <= j < values@.len() ==> (#[trigger] values@[j])@ == group_value(
                    bytes,
                    groups@,
                    j + 1,
                ),
        decreases count - index,
    {
        let value = group(interp, haystack, groups, index);
        values.push(value);
        index += 1;
    }
    let value = <Dynamic as Convert<Artichoke, Vec<Dynamic>>>::convert(interp, values);
    proof {
        assert(value@->Array_0 =~= listed(bytes, groups@));
    }
    Ok(value)
}

/// `MatchData#captures`: match the pattern against the region again and
/// list the groups that the engine finds.
pub fn method(interp: &Artichoke, data: &MatchData) -> (r: Result<Dynamic, Error>)
    ensures
        value_view(r) == captured(
            encode_utf8(data.text()),
            engine_captures(data.pattern().pattern@, data.text()),
        ),
{
    let pattern = data.regexp().pattern.as_str();
    let match_against = data.match_against();
    let groups = match captures(pattern, match_against) {
        Some(Some(groups)) => groups,
        Some(None) => {
            return Err(Error::NoMatch);
        },
        None => {
            return Err(Error::Fatal);
        },
    };
    list(interp, match_against, &groups)
}

} // verus!
