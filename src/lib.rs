//! Pulls smart-meter readings from a metering API and prepares them for a
//! time-series database: token lifecycle, date-range batching, the fetch plan
//! and the conversion of readings into points.

pub mod dates;
pub mod token;
pub mod auth;
pub mod readings;
