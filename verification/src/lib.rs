//! Selection and interaction logic for connecting to networks on Linux:
//! parsing scanner output, ranking and choosing networks, and the decisions
//! that drive the connection flow.

pub mod text;
pub mod number;
pub mod errors;
pub mod enums;
pub mod structs;
pub mod parse;
pub mod interfaces;
pub mod options;
pub mod display;
pub mod sort_networks;
pub mod select;
pub mod retry;
pub mod known;
pub mod wifi_step;
pub mod scan;
pub mod commands;
pub mod services;
pub mod connect;
