//! Status handling of the GPU runtime boundary.
//!
//! Every call into the compute runtime returns a numeric status; codes
//! below 10000 are runtime codes, the rest belong to the inference engine.
//! The calls themselves are foreign functions that only exist next to the
//! hardware; the classification of their results is decided here.

use vstd::prelude::*;
use crate::err_code::{cuda_err_entries, cuda_err_name, spec_lookup, trt_err_entries, trt_err_name};

verus! {

/// First status code that belongs to the inference engine rather than the
/// compute runtime.
pub const ENGINE_CODE_BASE: u16 = 10000;

/// A failed runtime or engine call: the status code it returned.
#[derive(Clone, Copy, Debug, PartialEq, Eq, Structural)]
pub struct GpuError {
    pub code: u16,
}

impl GpuError {
    /// Whether the code is a compute-runtime code rather than an engine
    /// code.
    pub open spec fn spec_is_runtime(&self) -> bool {
        1 <= self.code < 10000
    }

    /// Whether the code is a compute-runtime code rather than an engine
    /// code.
    pub fn is_runtime(&self) -> (r: bool)
        ensures
            r == self.spec_is_runtime(),
    {
        1 <= self.code && self.code < ENGINE_CODE_BASE
    }

    /// The documented name of the code, if the tables know it: runtime
    /// codes resolve against the runtime table, the rest against the
    /// engine table.
    pub fn name(&self) -> (r: Option<&'static str>)
        ensures
            r == spec_lookup(
                if self.code < 10000 {
                    cuda_err_entries()
                } else {
                    trt_err_entries()
                },
                self.code as usize,
            ),
    {
        if self.code < ENGINE_CODE_BASE {
            cuda_err_name().get(self.code as usize)
        } else {
            trt_err_name().get(self.code as usize)
        }
    }
}

/// Classify a status code: zero is success, anything else the
/// corresponding error.
pub fn exec_and_check(code: u16) -> (r: Result<(), GpuError>)
    ensures
        match r {
            Ok(_) => code == 0,
            Err(e) => code != 0 && e == (GpuError { code }),
        },
{
    if code == 0 {
        Ok(())
    } else {
        Err(GpuError { code })
    }
}

} // verus!
