//! A small library for viewing a daily time series of pandemic statistics.
//!
//! The data is a mapping from country name to a chronologically ordered
//! sequence of daily records (confirmed, deaths and recovered counts).
//! The library looks one country up, drops records with a zero confirmed
//! count, keeps the most recent N records, and renders each kept record
//! as one fixed-width text line.

pub mod dataset;
pub mod query;
pub mod record;
pub mod render;
pub mod series;
