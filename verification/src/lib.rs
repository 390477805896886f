//! Small verified arithmetic: sums of arithmetic series, the sum of the
//! multiples of 3 or 5 below 1000, and Fibonacci numbers.
//!
//! Every executable function states its result over a mathematical
//! definition given as a spec function, and the identities that connect
//! those definitions are public proof functions.

pub mod series;
pub mod fibonacci;
pub mod multiples;
