//! The restore engine for teleporter archives: what each archive entry
//! calls for, in which order, and what becomes of failures.
//!
//! The engine does no outside work itself. A restore hands out one
//! [`action::Action`] at a time; the caller carries it out against the
//! datastore, the config files or the resolver's command, and reports back
//! with an [`action::Event`].

pub mod action;
pub mod addr;
pub mod cli;
pub mod config_laws;
pub mod dhcp;
pub mod dispatch;
pub mod dns;
pub mod error;
pub mod gravity;
pub mod records;
pub mod store;
pub mod table_laws;
pub mod tables;
pub mod text;
