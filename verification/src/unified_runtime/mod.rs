//! The Unified Runtime side: result codes, discovery and context creation,
//! and the owned context, queue and allocation values.

pub mod adapters;
pub mod calls;
pub mod count;
pub mod creation;
pub mod enumeration;
pub mod result;
pub mod setup;
pub mod safe;
pub mod sizes;
