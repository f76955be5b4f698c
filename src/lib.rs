//! Procedural terrain rendering over a fixed-point height field.
//!
//! Heights and real-valued parameters are held as Q16.16 fixed-point numbers:
//! the integer `n` stands for the real number `n / ONE`.
pub mod fixed;
pub mod palette;
pub mod field;
pub mod png;
pub mod params;
