//! Result codes of the Unified Runtime and their translation to `Result`.

use vstd::prelude::*;

verus! {

/// A result code reported by the Unified Runtime.
///
/// The codes that this library produces itself have variants of their own;
/// every other code that the runtime reports is carried by its raw value.
#[derive(Clone, Copy, Debug, PartialEq, Eq, Structural)]
pub enum ur_result_t {
    UR_RESULT_SUCCESS,
    UR_RESULT_ERROR_INVALID_DEVICE,
    UR_RESULT_ERROR_INVALID_SIZE,
    UR_RESULT_ERROR_INVALID_ENUMERATION,
    UR_RESULT_ERROR_OTHER(u32),
}

/// An error reported by the Unified Runtime, holding its result code.
#[derive(Clone, Copy, Debug, PartialEq, Eq, Structural)]
pub struct UnifiedRuntimeError(pub ur_result_t);

impl ur_result_t {
    /// The numeric value of the code in the Unified Runtime header
    /// (`ur_api.h`): 0 for success, 19 for an invalid device, 49 for an
    /// invalid size and 53 for an invalid enumeration; any other code is
    /// carried as its value.
    pub open spec fn spec_raw(self) -> u32 {
        match self {
            ur_result_t::UR_RESULT_SUCCESS => 0,
            ur_result_t::UR_RESULT_ERROR_INVALID_DEVICE => 19,
            ur_result_t::UR_RESULT_ERROR_INVALID_SIZE => 49,
            ur_result_t::UR_RESULT_ERROR_INVALID_ENUMERATION => 53,
            ur_result_t::UR_RESULT_ERROR_OTHER(n) => n,
        }
    }

    /// The code that the runtime reported as the number `raw`: a named
    /// variant for the numbers it has, `UR_RESULT_ERROR_OTHER` for every
    /// other number.
    pub fn from_raw(raw: u32) -> (c: Self)
        ensures
            c.spec_raw() == raw,
            c matches ur_result_t::UR_RESULT_ERROR_OTHER(n) ==> n != 0 && n != 19 && n != 49 && n != 53,
    {
        match raw {
            0 => ur_result_t::UR_RESULT_SUCCESS,
            19 => ur_result_t::UR_RESULT_ERROR_INVALID_DEVICE,
            49 => ur_result_t::UR_RESULT_ERROR_INVALID_SIZE,
            53 => ur_result_t::UR_RESULT_ERROR_INVALID_ENUMERATION,
            _ => ur_result_t::UR_RESULT_ERROR_OTHER(raw),
        }
    }

    /// Success becomes `Ok(())`; every other code becomes an error that holds it.
    pub fn result(self) -> (r: Result<(), UnifiedRuntimeError>)
        ensures
            self == ur_result_t::UR_RESULT_SUCCESS <==> r is Ok,
            r matches Err(e) ==> e.0 == self,
    {
        match self {
            ur_result_t::UR_RESULT_SUCCESS => Ok(()),
            _ => Err(UnifiedRuntimeError(self)),
        }
    }
}

} // verus!
