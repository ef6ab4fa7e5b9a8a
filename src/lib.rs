//! Installation and removal of the `.crs` file association, and upkeep of the
//! system's PATHEXT list, written as verified logic over plain values.
//!
//! The registry itself is reached by the caller: the library decides what is
//! read, written and deleted, and in which order, and the caller performs it.
pub mod assoc;
pub mod pathext;
pub mod session;
pub mod world;
