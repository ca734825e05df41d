//! One measurement channel of a device.

use vstd::prelude::*;
use crate::category::FFISensorType;
use crate::convert::{all_accepted, lemma_refused_slot_fails_all, taken_over, FromFfi};
use crate::error::ComputerError;
use crate::handle::FFIGCHandle;
use crate::native::FFISensor;

verus! {

/// A measurement channel: its handle, its name and its class.
///
/// The handle is never null, and the channel is its only owner.
#[derive(Debug)]
pub struct Sensor {
    inner: FFIGCHandle,
    name: String,
    sensor_type: FFISensorType,
}

/// What a [`Sensor`] holds.
pub ghost struct SensorView {
    /// The number by which the native handle is known.
    pub handle: usize,
    /// The decoded name.
    pub name: Seq<char>,
    /// The class.
    pub sensor_type: FFISensorType,
}

impl View for Sensor {
    type V = SensorView;

    closed spec fn view(&self) -> SensorView {
        SensorView { handle: self.inner@, name: self.name@, sensor_type: self.sensor_type }
    }
}

impl FromFfi for Sensor {
    type Raw = FFISensor;

    /// A record is refused for a null handle, else for a name that could not
    /// be decoded, else for a tag that names no class; a valid record is not
    /// refused.
    open spec fn refusal(raw: &FFISensor) -> Option<ComputerError> {
        if raw.ptr@ == 0 {
            Some(ComputerError::Null)
        } else if raw.name is None {
            Some(ComputerError::Text)
        } else if FFISensorType::spec_from_tag(raw.sensor_type) is None {
            Some(ComputerError::Category)
        } else {
            None
        }
    }

    open spec fn is_made_from(&self, raw: &FFISensor) -> bool {
        &&& self@.handle == raw.ptr@
        &&& raw.name matches Some(text) && self@.name == text@
        &&& FFISensorType::spec_from_tag(raw.sensor_type) == Some(self@.sensor_type)
    }

    fn from_ffi(raw: FFISensor) -> (made: Result<Self, ComputerError>) {
        let FFISensor { ptr, name, sensor_type } = raw;
        if ptr.is_null() {
            return Err(ComputerError::Null);
        }
        let name = match name {
            Some(text) => text,
            None => {
                return Err(ComputerError::Text);
            },
        };
        let sensor_type = match FFISensorType::from_tag(sensor_type) {
            Ok(class) => class,
            Err(e) => {
                return Err(e);
            },
        };
        Ok(Sensor { inner: ptr, name, sensor_type })
    }

    proof fn zeroed_is_refused(raw: &FFISensor) {
    }
}

impl Sensor {
    #[verifier::type_invariant]
    spec fn owns_live_handle(self) -> bool {
        self.inner@ != 0
    }

    /// The handle of the channel, to name it to the native layer.
    pub fn handle(&self) -> (handle: &FFIGCHandle)
        ensures
            handle@ == self@.handle,
            handle@ != 0,
    {
        proof {
            use_type_invariant(self);
        }
        &self.inner
    }

    /// The name of the channel.
    pub fn name(&self) -> (name: &str)
        ensures
            name@ == self@.name,
    {
        self.name.as_str()
    }

    /// The class of the channel.
    pub fn sensor_type(&self) -> (class: FFISensorType)
        ensures
            class == self@.sensor_type,
    {
        self.sensor_type
    }
}

impl Sensor {
    /// The records that can be taken over are the valid ones.
    pub proof fn lemma_accepted_iff_valid(slots: Seq<FFISensor>)
        ensures
            all_accepted::<Sensor>(slots, slots.len() as int) <==> (forall|i: int|
                0 <= i < slots.len() ==> (#[trigger] slots[i]).is_valid()),
    {
        if all_accepted::<Sensor>(slots, slots.len() as int) {
            assert forall|i: int| 0 <= i < slots.len() implies (#[trigger] slots[i]).is_valid() by {
                assert(Sensor::refusal(&slots[i]) is None);
            }
        }
        if forall|i: int| 0 <= i < slots.len() ==> (#[trigger] slots[i]).is_valid() {
            assert forall|i: int| 0 <= i < slots.len() implies (#[trigger] Sensor::refusal(
                &slots[i],
            )) is None by {
                assert(slots[i].is_valid());
            }
        }
    }

    /// An array of `n` slots that each hold a live handle, decoded text and a
    /// known tag gives exactly `n` channels, in the order of the slots: each
    /// owns the handle of its slot, which is not null, and has the name and
    /// the class that its slot holds.
    pub proof fn lemma_valid_slots_give_all(
        before: Seq<FFISensor>,
        after: Seq<FFISensor>,
        made: Result<Vec<Sensor>, ComputerError>,
    )
        requires
            taken_over::<Sensor>(before, after, made),
            forall|i: int| 0 <= i < before.len() ==> (#[trigger] before[i]).is_valid(),
        ensures
            made is Ok,
            made->Ok_0@.len() == before.len(),
            forall|i: int|
                0 <= i < before.len() ==> (#[trigger] made->Ok_0@[i]).is_made_from(&before[i]),
            forall|i: int| 0 <= i < before.len() ==> (#[trigger] made->Ok_0@[i])@.handle != 0,
    {
        Sensor::lemma_accepted_iff_valid(before);
    }

    /// No partial list: where some slot holds the null handle, the whole array
    /// is refused and no channel is handed out. Where every slot before it
    /// can be taken over, the array is refused for the null handle.
    pub proof fn lemma_null_slot_fails_all(
        before: Seq<FFISensor>,
        after: Seq<FFISensor>,
        made: Result<Vec<Sensor>, ComputerError>,
        k: int,
    )
        requires
            taken_over::<Sensor>(before, after, made),
            0 <= k < before.len(),
            before[k].ptr@ == 0,
        ensures
            made is Err,
            all_accepted::<Sensor>(before, k) ==> made->Err_0 == ComputerError::Null,
    {
        lemma_refused_slot_fails_all::<Sensor>(before, after, made, k);
    }
}

} // verus!
