//! A test bench for systems that talk MQTT, driven by a YAML test description.
//!
//! The description names the interfaces of the system under test (its MQTT
//! messages, with typed parameters and topic and payload templates), the
//! environment to set up (MongoDB containers, their data, brokers) and the
//! test runs (messages to send and to await, and checks on what arrives).
//! This library holds the description, walks it with visitors, writes its
//! Markdown documentation, fills message templates, plans the playbook of a
//! run, checks what was received, and makes the decisions of setting up the
//! environment. Running containers, reaching brokers and databases, and
//! reading and writing files are left to the program around it.

pub mod action;
pub mod definitions;
pub mod docker;
pub mod named_table;
pub mod network;
pub mod runtime;
pub mod text;
pub mod visitors;
