//! The sign of a quantity, held apart from its magnitude, with the
//! arithmetic between signs and between signs and signed integers.

mod integer;
mod sign;

pub use integer::{scaled, scaled_in_place};
pub use sign::{sign_of, Sign};
