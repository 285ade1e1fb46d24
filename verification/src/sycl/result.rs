//! Result codes of the SYCL shim and the error that carries them.

use vstd::prelude::*;
use vstd::string::StringExecFns;

verus! {

/// A result code reported by the SYCL shim.
#[derive(Clone, Copy, Debug, PartialEq, Eq, Structural)]
pub enum sycl_rs_result_t {
    SYCL_RS_RESULT_SUCCESS,
    SYCL_RS_RESULT_INVALID_ARGUMENT,
    SYCL_RS_RESULT_OUT_OF_MEMORY,
    SYCL_RS_RESULT_RUNTIME_ERROR,
}

impl sycl_rs_result_t {
    /// The numeric value of the code in the shim's C header.
    pub open spec fn spec_code(self) -> u32 {
        match self {
            sycl_rs_result_t::SYCL_RS_RESULT_SUCCESS => 0,
            sycl_rs_result_t::SYCL_RS_RESULT_INVALID_ARGUMENT => 1,
            sycl_rs_result_t::SYCL_RS_RESULT_OUT_OF_MEMORY => 2,
            sycl_rs_result_t::SYCL_RS_RESULT_RUNTIME_ERROR => 3,
        }
    }

    /// The numeric value of the code in the shim's C header.
    #[verifier::when_used_as_spec(spec_code)]
    pub fn code(self) -> (n: u32)
        ensures
            n == self.spec_code(),
    {
        match self {
            sycl_rs_result_t::SYCL_RS_RESULT_SUCCESS => 0,
            sycl_rs_result_t::SYCL_RS_RESULT_INVALID_ARGUMENT => 1,
            sycl_rs_result_t::SYCL_RS_RESULT_OUT_OF_MEMORY => 2,
            sycl_rs_result_t::SYCL_RS_RESULT_RUNTIME_ERROR => 3,
        }
    }

    /// The code with numeric value `n`, if the header names one.
    pub fn from_code(n: u32) -> (r: Option<Self>)
        ensures
            r matches Some(c) ==> c.spec_code() == n,
            r is Some <==> n <= 3,
    {
        match n {
            0 => Some(sycl_rs_result_t::SYCL_RS_RESULT_SUCCESS),
            1 => Some(sycl_rs_result_t::SYCL_RS_RESULT_INVALID_ARGUMENT),
            2 => Some(sycl_rs_result_t::SYCL_RS_RESULT_OUT_OF_MEMORY),
            3 => Some(sycl_rs_result_t::SYCL_RS_RESULT_RUNTIME_ERROR),
            _ => None,
        }
    }

    /// Success becomes `Ok(())`; any other code becomes an error holding the
    /// code and `message`, the shim's last error message.
    pub fn result(self, message: String) -> (r: Result<(), SyclError>)
        ensures
            self == sycl_rs_result_t::SYCL_RS_RESULT_SUCCESS <==> r is Ok,
            r matches Err(e) ==> e.code == self && e.message@ == message@,
    {
        match self {
            sycl_rs_result_t::SYCL_RS_RESULT_SUCCESS => Ok(()),
            _ => Err(SyclError::new(self, message)),
        }
    }
}

/// An error of the SYCL shim: its result code and its message.
#[derive(Clone, Debug, PartialEq, Eq)]
pub struct SyclError {
    pub code: sycl_rs_result_t,
    pub message: String,
}

/// The decimal text of a code.
pub open spec fn code_text(code: sycl_rs_result_t) -> Seq<char> {
    match code {
        sycl_rs_result_t::SYCL_RS_RESULT_SUCCESS => seq!['0'],
        sycl_rs_result_t::SYCL_RS_RESULT_INVALID_ARGUMENT => seq!['1'],
        sycl_rs_result_t::SYCL_RS_RESULT_OUT_OF_MEMORY => seq!['2'],
        sycl_rs_result_t::SYCL_RS_RESULT_RUNTIME_ERROR => seq!['3'],
    }
}

fn code_str(code: sycl_rs_result_t) -> (s: &'static str)
    ensures
        s@ == code_text(code),
{
    match code {
        sycl_rs_result_t::SYCL_RS_RESULT_SUCCESS => {
            proof {
                reveal_strlit("0");
            }
            "0"
        },
        sycl_rs_result_t::SYCL_RS_RESULT_INVALID_ARGUMENT => {
            proof {
                reveal_strlit("1");
            }
            "1"
        },
        sycl_rs_result_t::SYCL_RS_RESULT_OUT_OF_MEMORY => {
            proof {
                reveal_strlit("2");
            }
            "2"
        },
        sycl_rs_result_t::SYCL_RS_RESULT_RUNTIME_ERROR => {
            proof {
                reveal_strlit("3");
            }
            "3"
        },
    }
}

impl SyclError {
    /// The error with `code` and `message`.
    pub fn new(code: sycl_rs_result_t, message: String) -> (e: SyclError)
        ensures
            e.code == code,
            e.message@ == message@,
    {
        SyclError { code, message }
    }

    /// The text that describes the error: its message followed by its code,
    /// or the code alone when the message is empty.
    pub fn describe(&self) -> (s: String)
        ensures
            self.message@.len() == 0 ==> s@ == "SYCL error code "@ + code_text(self.code),
            self.message@.len() > 0 ==> s@ == self.message@ + " (code "@ + code_text(self.code) + ")"@,
    {
        if self.message.as_str().is_empty() {
            let mut s = String::from_str("SYCL error code ");
            s.append(code_str(self.code));
            s
        } else {
            let mut s = self.message.clone();
            s.append(" (code ");
            s.append(code_str(self.code));
            s.append(")");
            s
        }
    }
}

} // verus!
