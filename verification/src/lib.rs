//! Polling core of a photovoltaic inverter monitor.
//!
//! A cloud service is polled for the inverter's current power and cumulative
//! energy; every successful poll yields one [`Reading`] which replaces the
//! previous one in a [`StatusCell`]. The crate holds the decisions of that
//! process: the update loop as a state machine ([`update`]), the
//! normalization of what the supported vendors answer ([`services`]) and the
//! cell itself ([`status`]). Sending requests, sleeping and reading the clock
//! are left to the caller, which feeds the outcomes back in as plain values.
//!
//! Quantities are integers with three decimal places of the unit a reading is
//! reported in: power in milliwatts, energy in watt-hours.

pub mod numeric;
pub mod reading;
pub mod services;
pub mod status;
pub mod update;
pub mod version;

pub use reading::Reading;
pub use status::StatusCell;
pub use version::VersionInfo;
