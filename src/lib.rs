//! Collects buffer and scan statistics of a PostgreSQL database and renders
//! them as `metric.name value` lines for a scraping monitoring agent.

pub mod digits;
pub mod decimal;
pub mod records;
pub mod render;
pub mod config;
pub mod collect;
pub mod decode;
