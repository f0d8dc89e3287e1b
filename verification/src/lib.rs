//! A weather notifier: what to ask the weather provider, how to judge the
//! conditions that come back, which desktop alerts to raise for them and
//! when to look again.
//!
//! The library decides and the caller acts. Network access, the operating
//! system's notification facility and the clock stay with the caller, which
//! drives [`notifier::Notifier`] by reporting what happened and carrying out
//! what it is told to do next.

pub mod report;
pub mod conditions;
pub mod message;
pub mod client;
pub mod alert;
pub mod config;
pub mod notifier;
