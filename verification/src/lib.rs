//! The verified core of the DeadlockShock companion: it follows a game's
//! console log, decides which of the reported events cause a shock, and says
//! what is to be sent to a provider of shock devices.
//!
//! - `text` and `binary32` hold the strings and numbers the rest is built on.
//! - `bridge_record` and `bridge_listener` read events out of a growing log.
//! - `settings` and `shock` hold what a trigger does and what became of it.
//! - `pishock` and `provider` hold the requests to providers and their answers.
//! - `app` is the state of the companion and every step it takes.
//! - `persistence` says what is saved, when, and how it is read back.
//! - `companion`, `view` and `icon` hold what the window shows.
//!
//! Reading files, sending requests and drawing are left to the caller, who
//! performs what a function asks for and hands the outcome to the next.

pub mod app;
pub mod binary32;
pub mod bridge_listener;
pub mod bridge_record;
pub mod companion;
pub mod icon;
pub mod persistence;
pub mod pishock;
pub mod provider;
pub mod settings;
pub mod shock;
pub mod text;
pub mod view;
