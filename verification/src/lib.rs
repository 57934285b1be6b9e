//! Sending text messages through a LAN-attached modem gateway.
//!
//! The library holds the protocol of the gateway as a state machine without
//! I/O: it says which call to make next and what the outcome of a send is,
//! and the caller performs the calls and hands back what the device answered.

pub mod text;
pub mod status;
pub mod error;
pub mod config;
pub mod alcatel;
pub mod void;
pub mod service;
pub mod laws;
pub mod args_parser;
pub mod repository;
pub mod sms_repository;
pub mod contacts;
pub mod groups;
pub mod templates;
pub mod sms_send;
pub mod tables;

pub use crate::error::SmsError;
pub use crate::service::{create_service, SmsGateway, SmsService};
