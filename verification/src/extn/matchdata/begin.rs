//! `MatchData#begin`: where in the text a group starts, counted in
//! characters.

use vstd::prelude::*;
use vstd::string::StringSliceAdditionalSpecFns;
use vstd::utf8::{encode_utf8, is_char_boundary};
use crate::convert::fixnum::{int_of, is_int};
use crate::convert::string::{is_text, string_of};
use crate::convert::{Convert, TryConvert};
use crate::extn::matchdata::{
    chars_before,
    chars_before_offset,
    check_spans,
    find_name,
    name_position,
    position,
    region_text,
    resolve_position,
    spans_fit,
    MatchData,
    Region,
};
use crate::extn::regexp::engine::{
    capture_names,
    capture_names_view,
    captures,
    engine_capture_names,
    engine_captures,
};
use crate::value::types::Int;
use crate::value::{Dynamic, DynamicView};
use crate::Artichoke;

verus! {

/// Why the start of a group could not be told.
#[derive(Debug, Clone, Copy, Hash, PartialEq, Eq, Structural)]
pub enum Error {
    /// Something that should always hold did not.
    Fatal,
    /// The address is no integer and no name.
    IndexType,
    /// The pattern declares no group of the name that was asked for.
    NoGroup,
    /// The pattern does not match, or the group took no part in the match.
    NoMatch,
}

/// How the group is addressed.
#[derive(Debug, Clone, PartialEq, Eq)]
pub enum Args {
    /// By its index.
    Index(Int),
    /// By its name.
    Name(String),
}

/// Mathematical content of an [`Args`].
pub enum ArgsView {
    Index(Int),
    Name(Seq<char>),
}

impl View for Args {
    type V = ArgsView;

    open spec fn view(&self) -> ArgsView {
        match self {
            Args::Index(index) => ArgsView::Index(*index),
            Args::Name(name) => ArgsView::Name(name@),
        }
    }
}

/// The view of an outcome that holds an address.
pub open spec fn args_view(r: Result<Args, Error>) -> Result<ArgsView, Error> {
    match r {
        Ok(args) => Ok(args@),
        Err(e) => Err(e),
    }
}

/// The view of an outcome that holds a dynamic value.
pub open spec fn value_view(r: Result<Dynamic, Error>) -> Result<DynamicView, Error> {
    match r {
        Ok(value) => Ok(value@),
        Err(e) => Err(e),
    }
}

/// The address that the argument of a call stands for: an index if it is an
/// integer, else a name if it is text, else an index if the runtime could
/// turn it into an integer, which `to_int` then holds.
pub open spec fn extracted(first: DynamicView, to_int: Option<Int>) -> Result<ArgsView, Error> {
    match int_of(first) {
        Ok(index) => Ok(ArgsView::Index(index)),
        Err(_) => match string_of(first) {
            Ok(name) => Ok(ArgsView::Name(name)),
            Err(_) => match to_int {
                Some(index) => Ok(ArgsView::Index(index)),
                None => Err(Error::IndexType),
            },
        },
    }
}

/// Whether the address can only be had by asking the runtime to turn the
/// argument into an integer: whether the argument is neither an integer nor
/// text.
pub fn needs_to_int(first: &Dynamic) -> (r: bool)
    ensures
        r == (int_of(first@) is Err && string_of(first@) is Err),
{
    !is_int(first) && !is_text(first)
}

impl Args {
    /// Read the address from the argument of a call and from what the
    /// runtime made of the argument when it was asked for an integer. The
    /// runtime need only be asked where [`needs_to_int`] says so.
    pub fn extract(interp: &Artichoke, first: Dynamic, to_int: Option<Int>) -> (r: Result<
        Self,
        Error,
    >)
        ensures
            args_view(r) == extracted(first@, to_int),
    {
        let is_integer = match &first {
            Dynamic::Fixnum(_) => true,
            _ => false,
        };
        if is_integer {
            match <Int as TryConvert<Artichoke, Dynamic>>::try_convert(interp, first) {
                Ok(index) => Ok(Args::Index(index)),
                Err(_) => Err(Error::IndexType),
            }
        } else {
            match <String as TryConvert<Artichoke, Dynamic>>::try_convert(interp, first) {
                Ok(name) => Ok(Args::Name(name)),
                Err(_) => match to_int {
                    Some(index) => Ok(Args::Index(index)),
                    None => Err(Error::IndexType),
                },
            }
        }
    }
}

/// The position of the group that an address names among `count` groups. An
/// index that reaches back beyond the first group is fatal, and so is a
/// pattern whose names cannot be had. A name that the pattern does not
/// declare is reported as such.
pub open spec fn addressed(args: ArgsView, count: nat, names: Option<Seq<Option<Seq<char>>>>) -> Result<
    nat,
    Error,
> {
    match args {
        ArgsView::Index(index) => match position(count, index as int) {
            Some(p) => Ok(p),
            None => Err(Error::Fatal),
        },
        ArgsView::Name(name) => match names {
            Some(names) => match name_position(names, name) {
                Some(p) => Ok(p),
                None => Err(Error::NoGroup),
            },
            None => Err(Error::Fatal),
        },
    }
}

/// Where the addressed group starts, counted in characters from the start of
/// the text.
///
/// `subject` is the whole text and `region` the part of it that was
/// searched; the offsets in `groups` are byte offsets into that part. The
/// characters of the part that stand before the group are counted, and the
/// characters of the text that stand before the part are added.
pub open spec fn located(
    args: ArgsView,
    subject: Seq<char>,
    region: Region,
    groups: Seq<Option<(usize, usize)>>,
    names: Option<Seq<Option<Seq<char>>>>,
) -> Result<DynamicView, Error> {
    let text = region_text(subject, region);
    match addressed(args, groups.len(), names) {
        Ok(p) => if p < groups.len() && groups[p as int] is Some {
            let start = groups[p as int].unwrap().0;
            if start <= encode_utf8(text).len() && is_char_boundary(
                encode_utf8(text),
                start as int,
            ) {
                let begin = chars_before(text, start as int) + chars_before(
                    subject,
                    region.start as int,
                );
                if begin <= Int::MAX {
                    Ok(DynamicView::Fixnum(begin as Int))
                } else {
                    Err(Error::Fatal)
                }
            } else {
                Err(Error::Fatal)
            }
        } else {
            Err(Error::NoMatch)
        },
        Err(e) => Err(e),
    }
}

/// For a match with `n` groups, the start of the group at index `-1` is the
/// start of the group at index `n - 1`, and asking for the index `-(n + 1)`
/// is fatal.
pub proof fn negative_index_locates(
    subject: Seq<char>,
    region: Region,
    groups: Seq<Option<(usize, usize)>>,
    names: Option<Seq<Option<Seq<char>>>>,
)
    requires
        1 <= groups.len() < Int::MAX,
    ensures
        located(ArgsView::Index(-1i64), subject, region, groups, names) == located(
            ArgsView::Index((groups.len() - 1) as Int),
            subject,
            region,
            groups,
            names,
        ),
        located(ArgsView::Index((-(groups.len() + 1)) as Int), subject, region, groups, names)
            == Err::<DynamicView, Error>(Error::Fatal),
{
}

/// Where the addressed group starts, given what the engine found.
pub open spec fn begun(
    args: ArgsView,
    subject: Seq<char>,
    region: Region,
    found: Option<Option<Seq<Option<(usize, usize)>>>>,
    names: Option<Seq<Option<Seq<char>>>>,
) -> Result<DynamicView, Error> {
    match found {
        None => Err(Error::Fatal),
        Some(None) => Err(Error::NoMatch),
        Some(Some(groups)) => if spans_fit(
            groups,
            encode_utf8(region_text(subject, region)).len(),
        ) {
            located(args, subject, region, groups, names)
        } else {
            Err(Error::Fatal)
        },
    }
}

/// Tell where the addressed group starts among the groups of a match.
pub fn locate(
    interp: &Artichoke,
    args: Args,
    data: &MatchData,
    groups: &Vec<Option<(usize, usize)>>,
    names: &Option<Vec<Option<String>>>,
) -> (r: Result<Dynamic, Error>)
    ensures
        value_view(r) == located(
            args@,
            data.subject(),
            data.span(),
            groups@,
            capture_names_view(*names),
        ),
{
    let count = groups.len();
    let index = match args {
        Args::Index(index) => match resolve_position(count, index) {
            Some(p) => p,
            None => {
                return Err(Error::Fatal);
            },
        },
        Args::Name(name) => match names {
            Some(names) => match find_name(names, &name) {
                Some(p) => p,
                None => {
                    return Err(Error::NoGroup);
                },
            },
            None => {
                return Err(Error::Fatal);
            },
        },
    };
    if index >= count {
        return Err(Error::NoMatch);
    }
    let start = match groups[index] {
        Some(span) => span.0,
        None => {
            return Err(Error::NoMatch);
        },
    };
    let match_against = data.match_against();
    let region = data.region();
    let within = match chars_before_offset(match_against, start) {
        Some(within) => within,
        None => {
            return Err(Error::Fatal);
        },
    };
    let before = match chars_before_offset(data.string(), region.start) {
        Some(before) => before,
        None => {
            return Err(Error::Fatal);
        },
    };
    let begin = match (within as u64).checked_add(before as u64) {
        Some(begin) => begin,
        None => {
            return Err(Error::Fatal);
        },
    };
    if begin <= 0x7fff_ffff_ffff_ffff {
        Ok(<Dynamic as Convert<Artichoke, Int>>::convert(interp, begin as Int))
    } else {
        Err(Error::Fatal)
    }
}

/// `MatchData#begin`: match the pattern against the region again and tell
/// where the addressed group starts.
pub fn method(interp: &Artichoke, args: Args, data: &MatchData) -> (r: Result<Dynamic, Error>)
    ensures
        value_view(r) == begun(
            args@,
            data.subject(),
            data.span(),
            engine_captures(data.pattern().pattern@, data.text()),
            engine_capture_names(data.pattern().pattern@),
        ),
{
    let pattern = data.regexp().pattern.as_str();
    let match_against = data.match_against();
    let groups = match captures(pattern, match_against) {
        Some(Some(groups)) => groups,
        Some(None) => {
            return Err(Error::NoMatch);
        },
        None => {
            return Err(Error::Fatal);
        },
    };
    if !check_spans(&groups, match_against.as_bytes().len()) {
        return Err(Error::Fatal);
    }
    let names = match &args {
        Args::Name(_) => capture_names(pattern),
        _ => None,
    };
    locate(interp, args, data, &groups, &names)
}

} // verus!
