//! Two small owners of an `i32`: [`A`] keeps it inline, and [`B`] keeps it in
//! a heap block that it alone owns and that is freed when the cell goes.

pub mod cell;
pub mod value;

pub use cell::B;
pub use value::A;
