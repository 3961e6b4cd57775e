//! The system-timer peripheral and the time driver built on it.

pub mod driver;
