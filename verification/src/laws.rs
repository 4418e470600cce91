//! What holds of the crate's operations, said of their inputs and results alone.
//!
//! Each law names the fields, the numbers and the texts that a result is made of, and follows
//! from the definitions that the contracts use.

pub mod cards;
pub mod hours;
pub mod places;
pub mod readings;
pub mod steps;
pub mod texts;
