//! A minimal hardware-abstraction layer for memory-mapped device registers.
//!
//! The core is [`voladdress::VolAddress`], a typed handle to one register
//! location whose read and write operations are gated by compile-time
//! capability markers. Register values are fixed-width bit-packed records
//! with range-checked field accessors. [`bank::MemoryBank`] is an explicit
//! model of the register address space, so every access is specified and
//! proved against a mathematical map from addresses to register words.

pub mod bank;
pub mod color;
pub mod display_control;
pub mod mmio;
pub mod voladdress;
