//! Hardware sequencing engine for server sled boards.
//!
//! The engine decides; the caller performs. Every operation is a state
//! machine that hands out one hardware [`hw::Action`] at a time and is
//! resumed with the [`hw::Response`] the hardware gave.

pub mod bitstream;
pub mod boot;
pub mod bringup;
pub mod clock;
pub mod hw;
pub mod ksz8463;
pub mod rail;
pub mod sequencer;
pub mod vid;
