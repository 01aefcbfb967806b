//! Decides whether a device may run now: within a daily operating window, during the
//! cheapest contiguous block of hourly electricity prices.

pub mod clock;
pub mod engine;
pub mod pricing;
pub mod retry;
pub mod time;
pub mod window;
pub mod worker;
pub mod zone;
