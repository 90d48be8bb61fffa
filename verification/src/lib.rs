//! Dynamic property-resolution core for reflective "proxy" objects.
//!
//! A proxy instance intercepts every property access (read, write, call,
//! delete, existence test, enumeration) and maps it onto a single delegate
//! call, or onto a fixed fallback policy when no namespace in the lookup
//! qualifies for delegation.  The dispatcher itself is pure call/return
//! logic: it decides which delegate method to invoke and with which
//! arguments, and how to interpret what the delegate returned.  Actually
//! invoking script code is the interpreter's job and stays outside this
//! crate.

pub mod error;
pub mod laws;
pub mod name;
pub mod object;
pub mod value;
