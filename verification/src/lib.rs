//! Railway traffic control core: train state, conflict detection, operational
//! alerts, observer subscriptions and schedule-optimization orchestration.
//!
//! Every function in this crate carries a contract that Verus proves. Quantities
//! that are fractional in the field (speeds, distances, percentages) are held as
//! whole thousandths, and instants as milliseconds since the Unix epoch, so that
//! every rule is decided by exact integer arithmetic.

pub mod text;
pub mod time;
pub mod runtime;
pub mod models;
pub mod services;
pub mod websocket;
pub mod api;
pub mod config;
pub mod auth;
pub mod synthetic;
