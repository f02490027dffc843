//! Decision logic of a Redfish client for server baseboard management controllers.
//!
//! The crate performs no input or output. An operation is a function of the
//! replies received so far: it either finishes, or names the next request to
//! send (see [`exchange`]).

pub mod boot;
pub mod dell;
pub mod dell_actions;
pub mod dell_bios;
pub mod dell_laws;
pub mod dell_replay;
pub mod dell_runs;
pub mod dell_settings;
pub mod dell_status_runs;
pub mod error;
pub mod exchange;
pub mod inventory;
pub mod inventory_runs;
pub mod json;
pub mod json_laws;
pub mod jsonmap;
pub mod model;
pub mod names;
pub mod order;
pub mod outside;
pub mod refusals;
pub mod replay;
pub mod requests;
pub mod run;
pub mod search;
pub mod standard;
pub mod standard_laws;
pub mod standard_replay;
pub mod standard_runs;
pub mod supermicro;
pub mod supermicro_actions;
pub mod supermicro_boot;
pub mod supermicro_findings;
pub mod supermicro_laws;
pub mod supermicro_replay;
pub mod supermicro_runs;
pub mod supermicro_setup;
pub mod text;
pub mod text_laws;
