//! A smart-thermometer library: a verified model of a UDP temperature
//! listener. A background task receives 4-byte big-endian IEEE-754 readings,
//! keeps the latest one in a shared cell together with a connectivity flag,
//! and a display loop reads both without blocking the listener.
//!
//! Readings are handled as their 32-bit big-endian bit patterns; turning a
//! pattern into a floating-point number for display is left to the caller.

pub mod codec;
pub mod listener;
pub mod thermometer;
