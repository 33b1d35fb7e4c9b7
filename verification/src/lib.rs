//! Controller-to-MIDI mapping logic and the plain-data core of a bug bounty
//! automation tool, with their behaviour stated and proved.

pub mod types;
pub mod config;
pub mod midi;
pub mod text;
pub mod profiles;
pub mod buttons;
pub mod touchpad;
pub mod display;
pub mod hid_report;
pub mod registry;
pub mod driver_setup;
pub mod gamepad;
pub mod xinput;
pub mod discovery;
pub mod directinput;
pub mod mapper;
pub mod report_dump;
pub mod legacy;
pub mod plugin;
pub mod hunt_config;
pub mod web_scan;
pub mod subdomain_enum;
pub mod cli;
pub mod resources;
