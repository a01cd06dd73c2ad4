//! The data that flows through an analysis.

pub mod transaction;
