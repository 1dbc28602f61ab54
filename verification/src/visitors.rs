//! The passes over a test description.

pub mod generate_communication_protocol;
pub mod generate_mark_down;
pub mod generate_setup_environment;
pub mod generate_test;
