//! Sequences of floating values across the boundary.

use vstd::prelude::*;
use crate::convert::array::{
    convert_each,
    each_converts,
    sequence_try_converts,
    try_convert_sequence,
};
use crate::convert::{Convert, Error, TryConvert};
use crate::value::types::{Float, Ruby, Rust};
use crate::value::{Dynamic, DynamicView};
use crate::Artichoke;

verus! {

impl Convert<Artichoke, Vec<Float>> for Dynamic {
    type From = Rust;

    type To = Ruby;

    open spec fn converts(value: Vec<Float>, out: Dynamic) -> bool {
        each_converts(value@, out)
    }

    fn convert(interp: &Artichoke, value: Vec<Float>) -> (r: Dynamic) {
        convert_each(interp, value)
    }
}

impl TryConvert<Artichoke, Dynamic> for Vec<Float> {
    type From = Ruby;

    type To = Rust;

    open spec fn try_converts(value: Dynamic, out: Result<Vec<Float>, Error<Ruby, Rust>>) -> bool {
        sequence_try_converts(value, out)
    }

    fn try_convert(interp: &Artichoke, value: Dynamic) -> (r: Result<
        Vec<Float>,
        Error<Ruby, Rust>,
    >) {
        try_convert_sequence(interp, value)
    }
}

impl Convert<Artichoke, Vec<Option<Float>>> for Dynamic {
    type From = Rust;

    type To = Ruby;

    open spec fn converts(value: Vec<Option<Float>>, out: Dynamic) -> bool {
        each_converts(value@, out)
    }

    fn convert(interp: &Artichoke, value: Vec<Option<Float>>) -> (r: Dynamic) {
        convert_each(interp, value)
    }
}

impl TryConvert<Artichoke, Dynamic> for Vec<Option<Float>> {
    type From = Ruby;

    type To = Rust;

    open spec fn try_converts(value: Dynamic, out: Result<Vec<Option<Float>>, Error<Ruby, Rust>>) -> bool {
        sequence_try_converts(value, out)
    }

    fn try_convert(interp: &Artichoke, value: Dynamic) -> (r: Result<
        Vec<Option<Float>>,
        Error<Ruby, Rust>,
    >) {
        try_convert_sequence(interp, value)
    }
}

/// A sequence of floating values that went to the runtime comes back as it
/// was.
pub proof fn floats_round_trip(v: Vec<Float>, d: Dynamic, r: Result<Vec<Float>, Error<Ruby, Rust>>)
    requires
        <Dynamic as Convert<Artichoke, Vec<Float>>>::converts(v, d),
        <Vec<Float> as TryConvert<Artichoke, Dynamic>>::try_converts(d, r),
    ensures
        r matches Ok(back) && back@ == v@,
{
    let items = d->Array_0@;
    assert forall|i: int| 0 <= i < v@.len() implies #[trigger] items[i]@ == DynamicView::Float(
        v@[i],
    ) by {
        assert(<Dynamic as Convert<Artichoke, Float>>::converts(v@[i], items[i]));
    }
    match r {
        Ok(back) => {
            assert forall|i: int| 0 <= i < v@.len() implies back@[i] == v@[i] by {
                assert(<Float as TryConvert<Artichoke, Dynamic>>::try_converts(
                    items[i],
                    Ok(back@[i]),
                ));
            }
            assert(back@ =~= v@);
        },
        Err(e) => {
            let converted = choose|converted: Seq<Float>|
                {
                    &&& converted.len() < items.len()
                    &&& forall|i: int|
                        0 <= i < converted.len() ==> #[trigger] <Float as TryConvert<
                            Artichoke,
                            Dynamic,
                        >>::try_converts(items[i], Ok(converted[i]))
                    &&& <Float as TryConvert<Artichoke, Dynamic>>::try_converts(
                        items[converted.len() as int],
                        Err(e),
                    )
                };
            assert(items[converted.len() as int]@ is Float);
        },
    }
}

} // verus!
