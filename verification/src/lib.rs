//! Derives velocity and displacement time series from a three-axis
//! seismograph acceleration record.
//!
//! The record model, the line classification of the delimited input format,
//! and the two cascaded recursive digital filters of the integration engine
//! live here, each with a contract. File reading and chart rendering are
//! left to the caller.

pub mod csv_parser;
pub mod fp;
pub mod integral;
pub mod record;
