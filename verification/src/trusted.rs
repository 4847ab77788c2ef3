//! What this crate believes of the libraries it calls.
//!
//! Each function here only makes the call into an outside library; its
//! contract is taken from that library's source and is not proved.

pub mod fr;
pub mod g1;
pub mod sha;
