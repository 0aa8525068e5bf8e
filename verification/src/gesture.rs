//! Gesture detection.

pub mod config;
pub mod reading;
