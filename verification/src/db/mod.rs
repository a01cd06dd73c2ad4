//! What the library knows of the data store's fork facility.

pub mod fork;
