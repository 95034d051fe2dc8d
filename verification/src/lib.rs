//! Watches one shipment: decides, from what the tracking service and the chat
//! service answer, what to do next, and composes the status message.
//!
//! `tracker` holds the watch itself, a machine from events to reactions, and
//! `laws` what holds of every run of it. `reading` turns the tracking
//! service's answer into the record of `waybill`, which also composes the
//! message. `requests` makes the two requests, `config` the settings, and
//! `json` is the ground under `reading`: the calls into `serde_json`.
//!
//! Nothing here talks to the network, reads the clock or prints: the caller
//! does what a reaction asks for and comes back with the next event.

pub mod config;
pub mod json;
pub mod laws;
pub mod reading;
pub mod requests;
pub mod text;
pub mod tracker;
pub mod waybill;
