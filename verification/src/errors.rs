//! The error values that a failed service hands back.

use vstd::prelude::*;

verus! {

/// The status code that a service left in `AX` when it failed.
#[derive(Debug, Clone)]
pub struct AxErr {
    pub ax_err: u16,
}

/// A failed allocation: the status code from `AX`, and from `BX` the size
/// in paragraphs of the largest block that could still be had.
#[derive(Debug, Clone)]
pub struct AllocErr {
    pub ax_err: u16,
    pub bx_available_paragraphs: u16,
}

/// The status that a video service left in `AL` when it failed. It is never
/// zero: zero in `AL` is how the service reports success.
#[derive(Debug, Clone)]
pub struct AlErr {
    pub al_err: u8,
}

impl AlErr {
    /// A zero status stands for success and is no error value.
    pub open spec fn wf(&self) -> bool {
        self.al_err != 0
    }

    /// The error value of the status byte `al`: `None` for zero, which is
    /// no error.
    #[inline]
    pub fn new(al: u8) -> (r: Option<AlErr>)
        ensures
            al == 0 ==> r is None,
            al != 0 ==> r == Some(AlErr { al_err: al }),
            r matches Some(e) ==> e.wf(),
    {
        if al == 0 {
            None
        } else {
            Some(AlErr { al_err: al })
        }
    }
}

} // verus!
