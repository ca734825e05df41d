//! The root of a monitoring session.

use vstd::prelude::*;
use crate::convert::{take_all, taken_over};
use crate::error::ComputerError;
use crate::handle::FFIGCHandle;
use crate::hardware::Hardware;
use crate::native::FFIHardware;

verus! {

/// The monitored computer: the one owner of the native root handle, which is
/// never null.
#[derive(Debug)]
pub struct Computer {
    inner: FFIGCHandle,
}

impl View for Computer {
    /// The number by which the native root handle is known.
    type V = usize;

    closed spec fn view(&self) -> usize {
        self.inner@
    }
}

impl Computer {
    #[verifier::type_invariant]
    spec fn owns_live_handle(self) -> bool {
        self.inner@ != 0
    }

    /// Takes over the root handle that the native layer handed out.
    ///
    /// Every handle but the null handle is accepted, and the computer then
    /// holds exactly that handle.
    pub fn new(inner: FFIGCHandle) -> (made: Result<Computer, ComputerError>)
        ensures
            made is Ok <==> inner@ != 0,
            match made {
                Ok(computer) => computer@ == inner@,
                Err(e) => e == ComputerError::Null,
            },
    {
        if inner.is_null() {
            return Err(ComputerError::Null);
        }
        Ok(Computer { inner })
    }

    /// The root handle, to name the session to the native layer.
    pub fn handle(&self) -> (handle: &FFIGCHandle)
        ensures
            handle@ == self@,
            handle@ != 0,
    {
        proof {
            use_type_invariant(self);
        }
        &self.inner
    }

    /// Hands on the diagnostic report of the native layer: `decoded` is what
    /// the native text decodes to, or `None` where it could not be decoded,
    /// which is an error.
    pub fn get_report(&self, decoded: Option<String>) -> (report: Result<String, ComputerError>)
        ensures
            report is Ok <==> decoded is Some,
            match report {
                Ok(text) => decoded == Some(text),
                Err(e) => e == ComputerError::Text,
            },
    {
        match decoded {
            Some(text) => Ok(text),
            None => Err(ComputerError::Text),
        }
    }

    /// Takes over the array of top-level devices that the native layer filled
    /// in, all or nothing.
    pub fn get_hardwares(&self, native: &mut Vec<FFIHardware>) -> (made: Result<
        Vec<Hardware>,
        ComputerError,
    >)
        ensures
            made is Ok <==> (forall|i: int|
                0 <= i < old(native)@.len() ==> (#[trigger] old(native)@[i]).is_valid()),
            taken_over::<Hardware>(old(native)@, final(native)@, made),
    {
        let made = take_all::<Hardware>(native);
        proof {
            Hardware::lemma_accepted_iff_valid(old(native)@);
        }
        made
    }
}

} // verus!
