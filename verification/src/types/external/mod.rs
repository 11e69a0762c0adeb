//! The value types that the library brings along.

pub mod datetime;
pub mod integers;
pub mod string;
