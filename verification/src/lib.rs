//! Air-quality measurement core for the PMSA003I particulate-matter sensor.
//!
//! The crate turns one raw sensor frame into an EPA Air Quality Index and a
//! colour category:
//!
//! * [`pmsa003i`] checks a frame's header and checksum and decodes its
//!   big-endian measurement fields;
//! * [`aqi`] interpolates a PM2.5 concentration over the EPA breakpoint table
//!   and maps the resulting index to a colour;
//! * [`cycle`] is the state machine that takes one trigger through read,
//!   validation, decoding and computation back to rest;
//! * [`led`] says which LEDs of the board show a colour.
//!
//! The crate does no input or output and no floating-point arithmetic. Every
//! function is verified against the contract written in its signature, and
//! the `law_` proof functions state what holds across functions.

pub mod aqi;
pub mod cycle;
pub mod led;
pub mod pmsa003i;
