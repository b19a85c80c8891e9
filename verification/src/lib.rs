//! Driver model for the per-core ARM generic timer of a multi-core
//! single-board system.
//!
//! The library provides a monotonic microsecond clock and a one-shot
//! relative alarm backed by a counter/comparator timer, together with the
//! per-core interrupt-line plumbing that lets the alarm raise and be queried
//! for a pending interrupt.  Register state is modelled as plain values, so
//! every bit position, field offset and conversion formula is stated in a
//! contract and proved; the thin memory-mapped shell that carries the same
//! operations onto real hardware lives outside the verified library.

pub mod convert;
pub mod interrupt;
pub mod timer;
