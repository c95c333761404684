//! Conversion of whole series of values.

use std::convert::TryInto;
use vstd::prelude::*;

verus! {

/// Whether converting `item` may give `outcome`. For a type that keeps to its model of
/// the conversion, `outcome` is then what the model gives for `item`.
pub open spec fn converts_to<T: TryInto<U>, U>(item: T, outcome: Result<U, T::Error>) -> bool {
    call_ensures(T::try_into, (item,), outcome)
}

/// Whether converting `item` may succeed.
pub open spec fn may_convert<T: TryInto<U>, U>(item: T) -> bool {
    exists|value: U| #[trigger] converts_to::<T, U>(item, Ok(value))
}

/// Whether converting may succeed for each of the first `n` items.
pub open spec fn all_convert<T: TryInto<U>, U>(items: Seq<T>, n: int) -> bool {
    forall|i: int| 0 <= i < n ==> #[trigger] may_convert::<T, U>(items[i])
}

/// Whether item `k` is the first that does not convert, and `e` an error that it may give.
pub open spec fn fails_first_at<T: TryInto<U>, U>(items: Seq<T>, k: int, e: T::Error) -> bool {
    &&& 0 <= k < items.len()
    &&& all_convert::<T, U>(items, k)
    &&& converts_to::<T, U>(items[k], Err(e))
}

/// Tries to convert a series of items, each to a `U`, in their order. Returns the
/// converted items, or the error of the first item that does not convert.
pub fn try_convert_all<T, U>(items: Vec<T>) -> (r: Result<Vec<U>, T::Error>) where T: TryInto<U>
    ensures
        match r {
            Ok(converted) => {
                &&& converted.len() == items.len()
                &&& forall|i: int|
                    0 <= i < items.len() ==> converts_to::<T, U>(
                        items[i],
                        Ok(#[trigger] converted[i]),
                    )
            },
            Err(e) => exists|k: int| fails_first_at::<T, U>(items@, k, e),
        },
{
    let mut result: Vec<U> = Vec::with_capacity(items.len());
    let ghost all = items@;
    for item in it: items
        invariant
            it.seq() == all,
            result.len() == it.index(),
            forall|i: int|
                0 <= i < it.index() ==> converts_to::<T, U>(all[i], Ok(#[trigger] result[i])),
    {
        match item.try_into() {
            Ok(value) => {
                result.push(value);
            },
            Err(e) => {
                proof {
                    assert forall|i: int| 0 <= i < it.index() implies #[trigger] may_convert::<T, U>(
                        all[i],
                    ) by {
                        assert(converts_to::<T, U>(all[i], Ok(result[i])));
                    }
                }
                let failure: Result<Vec<U>, T::Error> = Err(e);
                assert(failure matches Err(cause) && fails_first_at::<T, U>(
                    items@,
                    it.index(),
                    cause,
                ));
                return failure;
            },
        }
    }
    Ok(result)
}

} // verus!
