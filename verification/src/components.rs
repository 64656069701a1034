//! The components that need no content of their own.

pub mod unit;
