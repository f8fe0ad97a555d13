//! `MatchData#[]`: the text of one group, addressed by index or by name, or
//! of a run of groups, addressed by the index of the first and a length.

use vstd::prelude::*;
use vstd::string::StringSliceAdditionalSpecFns;
use vstd::utf8::encode_utf8;
use crate::convert::fixnum::{int_of, is_int, usize_of};
use crate::convert::string::{is_text, string_of};
use crate::convert::{Convert, TryConvert};
use crate::extn::matchdata::{
    check_spans,
    find_name,
    group,
    group_value,
    name_position,
    position,
    resolve_position,
    spans_fit,
    MatchData,
};
use crate::extn::regexp::engine::{
    capture_names,
    capture_names_view,
    captures,
    engine_capture_names,
    engine_captures,
};
use crate::value::types::Int;
use crate::value::{Dynamic, DynamicView};
use crate::Artichoke;

verus! {

/// Why a group could not be looked up.
#[derive(Debug, Clone, Hash, PartialEq, Eq)]
pub enum Error {
    /// Something that should always hold did not.
    Fatal,
    /// The address is no integer, no name and no range.
    IndexType,
    /// The length is no size.
    LengthType,
    /// The pattern declares no group of this name.
    NoGroup(String),
    /// The pattern does not match.
    NoMatch,
}

/// Mathematical content of an [`Error`].
pub enum ErrorView {
    Fatal,
    IndexType,
    LengthType,
    NoGroup(Seq<char>),
    NoMatch,
}

impl View for Error {
    type V = ErrorView;

    open spec fn view(&self) -> ErrorView {
        match self {
            Error::Fatal => ErrorView::Fatal,
            Error::IndexType => ErrorView::IndexType,
            Error::LengthType => ErrorView::LengthType,
            Error::NoGroup(name) => ErrorView::NoGroup(name@),
            Error::NoMatch => ErrorView::NoMatch,
        }
    }
}

/// How the groups of a match are addressed.
#[derive(Debug, Clone, PartialEq, Eq)]
pub enum Args {
    /// One group, by its index.
    Index(Int),
    /// One group, by its name.
    Name(String),
    /// A run of groups, by the index of the first and their number.
    StartLen(Int, usize),
}

/// Mathematical content of an [`Args`].
pub enum ArgsView {
    Index(Int),
    Name(Seq<char>),
    StartLen(Int, usize),
}

impl View for Args {
    type V = ArgsView;

    open spec fn view(&self) -> ArgsView {
        match self {
            Args::Index(index) => ArgsView::Index(*index),
            Args::Name(name) => ArgsView::Name(name@),
            Args::StartLen(start, len) => ArgsView::StartLen(*start, *len),
        }
    }
}

/// The view of an outcome that holds an address.
pub open spec fn args_view(r: Result<Args, Error>) -> Result<ArgsView, ErrorView> {
    match r {
        Ok(args) => Ok(args@),
        Err(e) => Err(e@),
    }
}

/// The view of an outcome that holds a dynamic value.
pub open spec fn value_view(r: Result<Dynamic, Error>) -> Result<DynamicView, ErrorView> {
    match r {
        Ok(value) => Ok(value@),
        Err(e) => Err(e@),
    }
}

/// The address that a decomposed range stands for: its start and its length,
/// if the length is a size of the host.
pub open spec fn range_args(range: Option<(Int, Int)>) -> Result<Option<ArgsView>, ErrorView> {
    match range {
        Some((start, len)) => if 0 <= len <= usize::MAX {
            Ok(Some(ArgsView::StartLen(start, len as usize)))
        } else {
            Err(ErrorView::LengthType)
        },
        None => Ok(None),
    }
}

/// The address that the arguments of a call stand for.
///
/// With a second argument the first must be an integer and the second a size:
/// they address a run of groups. A single argument is an index if it is an
/// integer, else a name if it is text, else a run of groups if the runtime
/// could decompose it as a range, of which `range` holds the start and the
/// length.
pub open spec fn extracted(
    first: DynamicView,
    second: Option<DynamicView>,
    range: Option<(Int, Int)>,
    num_captures: usize,
) -> Result<ArgsView, ErrorView> {
    if num_captures > Int::MAX {
        Err(ErrorView::Fatal)
    } else {
        match second {
            Some(length) => match int_of(first) {
                Ok(start) => match usize_of(length) {
                    Ok(len) => Ok(ArgsView::StartLen(start, len)),
                    Err(_) => Err(ErrorView::LengthType),
                },
                Err(_) => Err(ErrorView::IndexType),
            },
            None => match int_of(first) {
                Ok(index) => Ok(ArgsView::Index(index)),
                Err(_) => match string_of(first) {
                    Ok(name) => Ok(ArgsView::Name(name)),
                    Err(_) => match range_args(range) {
                        Ok(Some(args)) => Ok(args),
                        Ok(None) => Err(ErrorView::IndexType),
                        Err(e) => Err(e),
                    },
                },
            },
        }
    }
}

/// Whether the address can only be had by asking the runtime to decompose
/// the first argument as a range: whether there is no second argument and
/// the first is neither an integer nor text.
pub fn needs_range(first: &Dynamic, second: &Option<Dynamic>) -> (r: bool)
    ensures
        r == (second is None && int_of(first@) is Err && string_of(first@) is Err),
{
    second.is_none() && !is_int(first) && !is_text(first)
}

/// The length of the collection over which the runtime decomposes a range:
/// the number of groups and one more, if that is an integer of the runtime.
pub fn range_length(num_captures: usize) -> (r: Option<Int>)
    ensures
        r == if num_captures < Int::MAX {
            Some((num_captures + 1) as Int)
        } else {
            None
        },
{
    match i64::try_from(num_captures) {
        Ok(count) => count.checked_add(1),
        Err(_) => None,
    }
}

impl Args {
    /// Read the address from the arguments of a call: the first argument,
    /// the second if there is one, and what the runtime made of the first
    /// when it was asked to decompose it as a range over the groups. The
    /// runtime need only be asked where [`needs_range`] says so, over a
    /// collection of the length that [`range_length`] gives.
    pub fn extract(
        interp: &Artichoke,
        first: Dynamic,
        second: Option<Dynamic>,
        range: Option<(Int, Int)>,
        num_captures: usize,
    ) -> (r: Result<Self, Error>)
        ensures
            args_view(r) == extracted(
                first@,
                match second {
                    Some(length) => Some(length@),
                    None => None,
                },
                range,
                num_captures,
            ),
    {
        if i64::try_from(num_captures).is_err() {
            return Err(Error::Fatal);
        }
        match second {
            Some(length) => {
                let start = match <Int as TryConvert<Artichoke, Dynamic>>::try_convert(
                    interp,
                    first,
                ) {
                    Ok(start) => start,
                    Err(_) => {
                        return Err(Error::IndexType);
                    },
                };
                match <usize as TryConvert<Artichoke, Dynamic>>::try_convert(interp, length) {
                    Ok(len) => Ok(Args::StartLen(start, len)),
                    Err(_) => Err(Error::LengthType),
                }
            },
            None => {
                let is_integer = match &first {
                    Dynamic::Fixnum(_) => true,
                    _ => false,
                };
                if is_integer {
                    match <Int as TryConvert<Artichoke, Dynamic>>::try_convert(interp, first) {
                        Ok(index) => Ok(Args::Index(index)),
                        Err(_) => Err(Error::IndexType),
                    }
                } else {
                    match <String as TryConvert<Artichoke, Dynamic>>::try_convert(interp, first) {
                        Ok(name) => Ok(Args::Name(name)),
                        Err(_) => match Self::is_range(range) {
                            Ok(Some(args)) => Ok(args),
                            Ok(None) => Err(Error::IndexType),
                            Err(e) => Err(e),
                        },
                    }
                }
            },
        }
    }

    /// The address that a decomposed range stands for.
    pub fn is_range(range: Option<(Int, Int)>) -> (r: Result<Option<Self>, Error>)
        ensures
            match r {
                Ok(Some(args)) => range_args(range) == Ok::<Option<ArgsView>, ErrorView>(
                    Some(args@),
                ),
                Ok(None) => range_args(range) == Ok::<Option<ArgsView>, ErrorView>(None),
                Err(e) => range_args(range) == Err::<Option<ArgsView>, ErrorView>(e@),
            },
    {
        match range {
            Some((start, len)) => match usize::try_from(len) {
                Ok(len) => Ok(Some(Args::StartLen(start, len))),
                Err(_) => Err(Error::LengthType),
            },
            None => Ok(None),
        }
    }
}

/// The values of `len` groups in a row, from the group at `start` on.
pub open spec fn run_of_groups(
    bytes: Seq<u8>,
    groups: Seq<Option<(usize, usize)>>,
    start: nat,
    len: nat,
) -> Seq<DynamicView> {
    Seq::new(len, |k: int| group_value(bytes, groups, start + k))
}

/// What an address resolves to, given the bytes of the text that was
/// searched, where each group matched in it, and the names of the groups.
///
/// An index resolves to the value of its group, and to `nil` where it
/// addresses none. A name resolves to the value of the first group of that
/// name. A run resolves to an array of the values of its groups, with `nil`
/// for every position that has no group. Groups that do not lie within the
/// text are fatal, whatever the address.
pub open spec fn resolved(
    args: ArgsView,
    bytes: Seq<u8>,
    groups: Seq<Option<(usize, usize)>>,
    names: Option<Seq<Option<Seq<char>>>>,
) -> Result<DynamicView, ErrorView> {
    if spans_fit(groups, bytes.len()) {
        addressed(args, bytes, groups, names)
    } else {
        Err(ErrorView::Fatal)
    }
}

/// What an address resolves to among groups that lie within the text.
pub open spec fn addressed(
    args: ArgsView,
    bytes: Seq<u8>,
    groups: Seq<Option<(usize, usize)>>,
    names: Option<Seq<Option<Seq<char>>>>,
) -> Result<DynamicView, ErrorView> {
    match args {
        ArgsView::Index(index) => match position(groups.len(), index as int) {
            Some(p) => Ok(group_value(bytes, groups, p as int)),
            None => Ok(DynamicView::Nil),
        },
        ArgsView::Name(name) => match names {
            Some(names) => match name_position(names, name) {
                Some(p) => Ok(group_value(bytes, groups, p as int)),
                None => Err(ErrorView::NoGroup(name)),
            },
            None => Err(ErrorView::Fatal),
        },
        ArgsView::StartLen(start, len) => match position(groups.len(), start as int) {
            Some(p) => Ok(DynamicView::Array(run_of_groups(bytes, groups, p, len as nat))),
            None => Err(ErrorView::Fatal),
        },
    }
}

/// For a match with `n` groups, the index `-1` resolves to what the index
/// `n - 1` resolves to, and the index `-(n + 1)` resolves to `nil`.
pub proof fn negative_index_resolves(
    bytes: Seq<u8>,
    groups: Seq<Option<(usize, usize)>>,
    names: Option<Seq<Option<Seq<char>>>>,
)
    requires
        1 <= groups.len() < Int::MAX,
        spans_fit(groups, bytes.len()),
    ensures
        resolved(ArgsView::Index(-1i64), bytes, groups, names) == resolved(
            ArgsView::Index((groups.len() - 1) as Int),
            bytes,
            groups,
            names,
        ),
        resolved(ArgsView::Index((-(groups.len() + 1)) as Int), bytes, groups, names) == Ok::<
            DynamicView,
            ErrorView,
        >(DynamicView::Nil),
{
}

/// What an address resolves to, given what the engine found.
pub open spec fn referenced(
    args: ArgsView,
    bytes: Seq<u8>,
    found: Option<Option<Seq<Option<(usize, usize)>>>>,
    names: Option<Seq<Option<Seq<char>>>>,
) -> Result<DynamicView, ErrorView> {
    match found {
        None => Err(ErrorView::Fatal),
        Some(None) => Err(ErrorView::NoMatch),
        Some(Some(groups)) => resolved(args, bytes, groups, names),
    }
}

/// Resolve an address against the groups of a match.
pub fn resolve(
    interp: &Artichoke,
    args: Args,
    haystack: &str,
    groups: &Vec<Option<(usize, usize)>>,
    names: &Option<Vec<Option<String>>>,
) -> (r: Result<Dynamic, Error>)
    ensures
        value_view(r) == resolved(args@, haystack.spec_bytes(), groups@, capture_names_view(*names)),
{
    let ghost bytes = haystack.spec_bytes();
    if !check_spans(groups, haystack.as_bytes().len()) {
        return Err(Error::Fatal);
    }
    let count = groups.len();
    match args {
        Args::Index(index) => match resolve_position(count, index) {
            Some(p) => Ok(group(interp, haystack, groups, p)),
            None => Ok(<Dynamic as Convert<Artichoke, Option<Dynamic>>>::convert(interp, None)),
        },
        Args::Name(name) => match names {
            Some(names) => match find_name(names, &name) {
                Some(p) => Ok(group(interp, haystack, groups, p)),
                None => Err(Error::NoGroup(name)),
            },
            None => Err(Error::Fatal),
        },
        Args::StartLen(start, len) => {
            let first = match resolve_position(count, start) {
                Some(first) => first,
                None => {
                    return Err(Error::Fatal);
                },
            };
            let ghost p = position(groups@.len(), start as int).unwrap();
            let mut matches: Vec<Dynamic> = Vec::new();
            let mut k: usize = 0;
            while k < len
                invariant
                    k <= len,
                    count == groups@.len(),
                    spans_fit(groups@, bytes.len()),
                    bytes == haystack.spec_bytes(),
                    position(groups@.len(), start as int) == Some(p),
                    first == if p <= usize::MAX {
                        p as usize
                    } else {
                        usize::MAX
                    },
                    matches@.len() == k,
                    forall|j: int|
                        0 <= j < k ==> (#[trigger] matches@[j])@ == group_value(
                            bytes,
                            groups@,
                            p + j,
                        ),
                decreases len - k,
            {
                let value = match first.checked_add(k) {
                    Some(index) => group(interp, haystack, groups, index),
                    None => <Dynamic as Convert<Artichoke, Option<Dynamic>>>::convert(
                        interp,
                        None,
                    ),
                };
                matches.push(value);
                k += 1;
            }
            let value = <Dynamic as Convert<Artichoke, Vec<Dynamic>>>::convert(interp, matches);
            proof {
                assert(value@->Array_0 =~= run_of_groups(bytes, groups@, p, len as nat));
            }
            Ok(value)
        },
    }
}

/// `MatchData#[]`: match the pattern against the region again and resolve
/// the address against what the engine finds.
pub fn method(interp: &Artichoke, args: Args, data: &MatchData) -> (r: Result<Dynamic, Error>)
    ensures
        value_view(r) == referenced(
            args@,
            encode_utf8(data.text()),
            engine_captures(data.pattern().pattern@, data.text()),
            engine_capture_names(data.pattern().pattern@),
        ),
{
    let pattern = data.regexp().pattern.as_str();
    let match_against = data.match_against();
    let groups = match captures(pattern, match_against) {
        Some(Some(groups)) => groups,
        Some(None) => {
            return Err(Error::NoMatch);
        },
        None => {
            return Err(Error::Fatal);
        },
    };
    let names = match &args {
        Args::Name(_) => capture_names(pattern),
        _ => None,
    };
    resolve(interp, args, match_against, &groups, &names)
}

} // verus!
