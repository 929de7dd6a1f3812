//! Exact time-system and spherical-astronomy conversions.
//!
//! The library works on a fixed-point model so that every result is an exact
//! integer computation: instants are Julian Days scaled to whole milliseconds
//! (one day = 86 400 000 ms), angles are whole nano-degrees (one degree =
//! 10^9 nano-degrees), and sidereal time is whole nano-hours. On this grid the
//! Julian-day arithmetic, the angle normalizations, the Greenwich sidereal
//! polynomial and the degenerate branch of the parallactic angle are all
//! exactly representable, and their contracts are machine-checked.

pub mod constants;
pub mod coordinates;
pub mod juliandays;
pub mod normalize;
