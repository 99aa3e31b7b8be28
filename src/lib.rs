//! A discrete-time simulator of a fee and rebate economy: each epoch derives a new
//! snapshot of the economy from the history of earlier snapshots.
//!
//! Amounts of money are whole micro-dollars and rates are parts per million, so that
//! every quantity of the model is an exact integer. A result that leaves the range
//! of `i64` is a numeric fault: the operation reports it instead of wrapping.
pub mod fixed;
pub mod state;
pub mod external;
pub mod internal;
pub mod driver;
pub mod laws;
