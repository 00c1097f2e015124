//! A retry driver that lends a fresh, attempt-scoped resource to a
//! caller-supplied operation, one attempt at a time.
//!
//! The decisions of the driver (which attempt runs next, when to stop, what
//! has been created and released so far) are kept free of any suspension
//! point, so that a loop which awaits the operation can be built around them.

pub mod driver;
pub mod label;
pub mod laws;
pub mod machine;
