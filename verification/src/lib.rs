//! A verified model of a binding to a time-of-flight camera SDK.
//!
//! The vendor's native library owns device discovery and streaming; what a
//! binding contributes on top of it is bookkeeping, and that bookkeeping is
//! what this crate states and proves: the mapping between raw status codes
//! and error values, the bit-flag tests that classify an interface, the
//! marshaling of fixed C-string fields into owned strings, and the handle
//! lifecycle (a library context, open interfaces, open devices) over an
//! explicit description of the attached hardware. The raw foreign calls
//! themselves stay outside the verified library.

pub mod context;
pub mod cstr;
pub mod fault;
pub mod flags;
pub mod mac;
pub mod status;
pub mod types;
pub mod util;
