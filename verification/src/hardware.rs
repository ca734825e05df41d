//! One monitored device.

use vstd::prelude::*;
use crate::category::FFIHardwareType;
use crate::convert::{all_accepted, lemma_refused_slot_fails_all, take_all, taken_over, FromFfi};
use crate::error::ComputerError;
use crate::handle::FFIGCHandle;
use crate::native::{FFIHardware, FFISensor};
use crate::sensor::Sensor;

verus! {

/// A device of the monitored computer: its handle, its name and its class.
///
/// The handle is never null, and the device is its only owner.
#[derive(Debug)]
pub struct Hardware {
    inner: FFIGCHandle,
    name: String,
    hardware_type: FFIHardwareType,
}

/// What a [`Hardware`] holds.
pub ghost struct HardwareView {
    /// The number by which the native handle is known.
    pub handle: usize,
    /// The decoded name.
    pub name: Seq<char>,
    /// The class.
    pub hardware_type: FFIHardwareType,
}

impl View for Hardware {
    type V = HardwareView;

    closed spec fn view(&self) -> HardwareView {
        HardwareView {
            handle: self.inner@,
            name: self.name@,
            hardware_type: self.hardware_type,
        }
    }
}

impl FromFfi for Hardware {
    type Raw = FFIHardware;

    /// A record is refused for a null handle, else for a name that could not
    /// be decoded, else for a tag that names no class; a valid record is not
    /// refused.
    open spec fn refusal(raw: &FFIHardware) -> Option<ComputerError> {
        if raw.ptr@ == 0 {
            Some(ComputerError::Null)
        } else if raw.name is None {
            Some(ComputerError::Text)
        } else if FFIHardwareType::spec_from_tag(raw.hardware_type) is None {
            Some(ComputerError::Category)
        } else {
            None
        }
    }

    open spec fn is_made_from(&self, raw: &FFIHardware) -> bool {
        &&& self@.handle == raw.ptr@
        &&& raw.name matches Some(text) && self@.name == text@
        &&& FFIHardwareType::spec_from_tag(raw.hardware_type) == Some(self@.hardware_type)
    }

    fn from_ffi(raw: FFIHardware) -> (made: Result<Self, ComputerError>) {
        let FFIHardware { ptr, name, hardware_type } = raw;
        if ptr.is_null() {
            return Err(ComputerError::Null);
        }
        let name = match name {
            Some(text) => text,
            None => {
                return Err(ComputerError::Text);
            },
        };
        let hardware_type = match FFIHardwareType::from_tag(hardware_type) {
            Ok(class) => class,
            Err(e) => {
                return Err(e);
            },
        };
        Ok(Hardware { inner: ptr, name, hardware_type })
    }

    proof fn zeroed_is_refused(raw: &FFIHardware) {
    }
}

impl Hardware {
    #[verifier::type_invariant]
    spec fn owns_live_handle(self) -> bool {
        self.inner@ != 0
    }

    /// The handle of the device, to name it to the native layer.
    pub fn handle(&self) -> (handle: &FFIGCHandle)
        ensures
            handle@ == self@.handle,
            handle@ != 0,
    {
        proof {
            use_type_invariant(self);
        }
        &self.inner
    }

    /// The name of the device.
    pub fn name(&self) -> (name: &str)
        ensures
            name@ == self@.name,
    {
        self.name.as_str()
    }

    /// The class of the device.
    pub fn hardware_type(&self) -> (class: FFIHardwareType)
        ensures
            class == self@.hardware_type,
    {
        self.hardware_type
    }

    /// Takes over the array of this device's children that the native layer
    /// filled in, all or nothing.
    pub fn get_sub_hardwares(&self, native: &mut Vec<FFIHardware>) -> (made: Result<
        Vec<Hardware>,
        ComputerError,
    >)
        ensures
            made is Ok <==> (forall|i: int|
                0 <= i < old(native)@.len() ==> (#[trigger] old(native)@[i]).is_valid()),
            taken_over::<Hardware>(old(native)@, final(native)@, made),
    {
        let made = take_all::<Hardware>(native);
        proof {
            Hardware::lemma_accepted_iff_valid(old(native)@);
        }
        made
    }

    /// Takes over the array of this device's measurement channels that the
    /// native layer filled in, all or nothing.
    pub fn get_sensors(&self, native: &mut Vec<FFISensor>) -> (made: Result<
        Vec<Sensor>,
        ComputerError,
    >)
        ensures
            made is Ok <==> (forall|i: int|
                0 <= i < old(native)@.len() ==> (#[trigger] old(native)@[i]).is_valid()),
            taken_over::<Sensor>(old(native)@, final(native)@, made),
    {
        let made = take_all::<Sensor>(native);
        proof {
            Sensor::lemma_accepted_iff_valid(old(native)@);
        }
        made
    }
}

impl Hardware {
    /// The records that can be taken over are the valid ones.
    pub proof fn lemma_accepted_iff_valid(slots: Seq<FFIHardware>)
        ensures
            all_accepted::<Hardware>(slots, slots.len() as int) <==> (forall|i: int|
                0 <= i < slots.len() ==> (#[trigger] slots[i]).is_valid()),
    {
        if all_accepted::<Hardware>(slots, slots.len() as int) {
            assert forall|i: int| 0 <= i < slots.len() implies (#[trigger] slots[i]).is_valid() by {
                assert(Hardware::refusal(&slots[i]) is None);
            }
        }
        if forall|i: int| 0 <= i < slots.len() ==> (#[trigger] slots[i]).is_valid() {
            assert forall|i: int| 0 <= i < slots.len() implies (#[trigger] Hardware::refusal(
                &slots[i],
            )) is None by {
                assert(slots[i].is_valid());
            }
        }
    }

    /// An array of `n` slots that each hold a live handle, decoded text and a
    /// known tag gives exactly `n` devices, in the order of the slots: each
    /// owns the handle of its slot, which is not null, and has the name and
    /// the class that its slot holds.
    pub proof fn lemma_valid_slots_give_all(
        before: Seq<FFIHardware>,
        after: Seq<FFIHardware>,
        made: Result<Vec<Hardware>, ComputerError>,
    )
        requires
            taken_over::<Hardware>(before, after, made),
            forall|i: int| 0 <= i < before.len() ==> (#[trigger] before[i]).is_valid(),
        ensures
            made is Ok,
            made->Ok_0@.len() == before.len(),
            forall|i: int|
                0 <= i < before.len() ==> (#[trigger] made->Ok_0@[i]).is_made_from(&before[i]),
            forall|i: int| 0 <= i < before.len() ==> (#[trigger] made->Ok_0@[i])@.handle != 0,
    {
        Hardware::lemma_accepted_iff_valid(before);
    }

    /// No partial list: where some slot holds the null handle, the whole array
    /// is refused and no device is handed out. Where every slot before it
    /// can be taken over, the array is refused for the null handle.
    pub proof fn lemma_null_slot_fails_all(
        before: Seq<FFIHardware>,
        after: Seq<FFIHardware>,
        made: Result<Vec<Hardware>, ComputerError>,
        k: int,
    )
        requires
            taken_over::<Hardware>(before, after, made),
            0 <= k < before.len(),
            before[k].ptr@ == 0,
        ensures
            made is Err,
            all_accepted::<Hardware>(before, k) ==> made->Err_0 == ComputerError::Null,
    {
        lemma_refused_slot_fails_all::<Hardware>(before, after, made, k);
    }
}

} // verus!
