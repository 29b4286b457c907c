//! The data that the stages hand to each other.
pub mod date;
pub mod gedcom;
pub mod relation;
