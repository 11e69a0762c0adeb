//! Small operations built on the library.

pub mod auth_basic;
