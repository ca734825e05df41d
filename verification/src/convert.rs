//! The conversion protocol: native records become owned values, all of them
//! or none.

use vstd::prelude::*;
use crate::error::ComputerError;
use crate::helpers::{take_zeroed, Zeroed};

verus! {

/// An owned value that is made from one native record.
pub trait FromFfi: Sized {
    /// The native record that such a value is made from.
    type Raw: Zeroed;

    /// Why `raw` cannot be taken over, or `None` where it can.
    spec fn refusal(raw: &Self::Raw) -> Option<ComputerError>;

    /// Whether `self` is the owned value of `raw`: it holds the record's
    /// handle and what the record's text and tag decode to.
    spec fn is_made_from(&self, raw: &Self::Raw) -> bool;

    /// Takes a record over. It is refused for the first of its parts that
    /// cannot be taken over, and then nothing is made of it.
    fn from_ffi(raw: Self::Raw) -> (made: Result<Self, ComputerError>)
        ensures
            match made {
                Ok(value) => Self::refusal(&raw) is None && value.is_made_from(&raw),
                Err(e) => Self::refusal(&raw) == Some(e),
            },
    ;

    /// A slot that was emptied holds the null handle, and is refused for it.
    proof fn zeroed_is_refused(raw: &Self::Raw)
        requires
            raw.is_zeroed(),
        ensures
            Self::refusal(raw) == Some(ComputerError::Null),
    ;
}

/// Whether each of the first `n` slots can be taken over.
pub open spec fn all_accepted<T: FromFfi>(slots: Seq<T::Raw>, n: int) -> bool {
    forall|i: int| 0 <= i < n ==> (#[trigger] T::refusal(&slots[i])) is None
}

/// Whether slot `k` is the first that cannot be taken over.
pub open spec fn first_refused<T: FromFfi>(slots: Seq<T::Raw>, k: int) -> bool {
    &&& 0 <= k < slots.len()
    &&& all_accepted::<T>(slots, k)
    &&& T::refusal(&slots[k]) is Some
}

/// How a native array and the outcome of taking it over stand to each other:
/// `before` and `after` are the slots before and after the call, `made` is
/// what the call returned.
///
/// Where every record can be taken over, `made` holds one owned value per
/// slot, in the order of the slots, and every slot is left empty. Otherwise
/// `made` is the refusal of the first record that cannot be taken over: the
/// slots up to and including that one are left empty, and the slots behind it
/// are left as they were.
pub open spec fn taken_over<T: FromFfi>(
    before: Seq<T::Raw>,
    after: Seq<T::Raw>,
    made: Result<Vec<T>, ComputerError>,
) -> bool {
    &&& after.len() == before.len()
    &&& made is Ok <==> all_accepted::<T>(before, before.len() as int)
    &&& match made {
        Ok(values) => {
            &&& values@.len() == before.len()
            &&& forall|i: int|
                0 <= i < values@.len() ==> (#[trigger] values@[i]).is_made_from(&before[i])
            &&& forall|i: int| 0 <= i < after.len() ==> (#[trigger] after[i]).is_zeroed()
        },
        Err(e) => exists|k: int|
            {
                &&& #[trigger] first_refused::<T>(before, k)
                &&& T::refusal(&before[k]) == Some(e)
                &&& forall|i: int| 0 <= i <= k ==> (#[trigger] after[i]).is_zeroed()
                &&& forall|i: int| k < i < before.len() ==> #[trigger] after[i] == before[i]
            },
    }
}

/// Takes over every slot of a native array, in order, all or nothing.
///
/// Each slot is emptied as its record is moved out, and the walk stops at the
/// first record that is refused: no owned value is handed out then.
pub fn take_all<T: FromFfi>(native: &mut Vec<T::Raw>) -> (made: Result<Vec<T>, ComputerError>)
    ensures
        taken_over::<T>(old(native)@, final(native)@, made),
{
    let mut values: Vec<T> = Vec::new();
    let n: usize = native.len();
    let mut i: usize = 0;
    while i < n
        invariant
            i <= n,
            n == native@.len(),
            n == old(native)@.len(),
            values@.len() == i,
            all_accepted::<T>(old(native)@, i as int),
            forall|j: int| 0 <= j < i ==> (#[trigger] values@[j]).is_made_from(&old(native)@[j]),
            forall|j: int| 0 <= j < i ==> (#[trigger] native@[j]).is_zeroed(),
            forall|j: int| i <= j < n ==> #[trigger] native@[j] == old(native)@[j],
        decreases n - i,
    {
        let raw = take_zeroed(&mut native[i]);
        match T::from_ffi(raw) {
            Ok(value) => {
                values.push(value);
            },
            Err(e) => {
                assert(first_refused::<T>(old(native)@, i as int));
                return Err(e);
            },
        }
        i += 1;
    }
    Ok(values)
}

/// No partial list: where some slot cannot be taken over, the whole array is
/// refused and no owned value is handed out. Where that slot is the first
/// such, the array is refused for the reason that this slot is refused for.
pub proof fn lemma_refused_slot_fails_all<T: FromFfi>(
    before: Seq<T::Raw>,
    after: Seq<T::Raw>,
    made: Result<Vec<T>, ComputerError>,
    k: int,
)
    requires
        taken_over::<T>(before, after, made),
        0 <= k < before.len(),
        T::refusal(&before[k]) is Some,
    ensures
        made is Err,
        all_accepted::<T>(before, k) ==> Some(made->Err_0) == T::refusal(&before[k]),
{
    if all_accepted::<T>(before, k) {
        let j = choose|j: int|
            {
                &&& #[trigger] first_refused::<T>(before, j)
                &&& T::refusal(&before[j]) == Some(made->Err_0)
            };
        assert(j == k);
    }
}

/// An array that was taken over holds nothing to take: whatever the first pass
/// made, it left the first slot empty, so a second pass over the same array
/// is refused for a null handle and hands out no owned value.
pub proof fn lemma_second_pass_is_refused<T: FromFfi>(
    before: Seq<T::Raw>,
    between: Seq<T::Raw>,
    after: Seq<T::Raw>,
    first: Result<Vec<T>, ComputerError>,
    second: Result<Vec<T>, ComputerError>,
)
    requires
        before.len() > 0,
        taken_over::<T>(before, between, first),
        taken_over::<T>(between, after, second),
    ensures
        between[0].is_zeroed(),
        second is Err,
        second->Err_0 == ComputerError::Null,
{
    T::zeroed_is_refused(&between[0]);
    lemma_refused_slot_fails_all::<T>(between, after, second, 0);
}

} // verus!
