//! Verified core of a control panel for containerised intrusion-detection
//! lab environments.
//!
//! The library holds everything the panel decides or computes: parsing of
//! runtime listings into typed records, classification of containers into
//! display groups, resolution of the active rule level from rule-file text,
//! and selection of rule templates. All process execution, filesystem access
//! and HTTP serving live outside the library and hand it plain values.

pub mod dashboard;
pub mod inventory;
pub mod lab;
pub mod level;
pub mod network;
pub mod text;
