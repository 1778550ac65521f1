//! Metrics exporter core for a home-automation hub: normalises the textual
//! state of device attributes into numeric codes, joins the hub's device
//! inventory with per-device detail, and renders the result as exposition
//! text for a metrics collector.

pub mod text;
pub mod rules;
pub mod hub;
pub mod inventory;
pub mod metrics;
pub mod scrape;
pub mod endpoints;
