//! The SYCL side: the shim's result codes, and the owned device, context,
//! queue, buffer, program and kernel values with the checks around them.

pub mod result;
pub mod bytes;
pub mod safe;
