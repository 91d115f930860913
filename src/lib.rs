//! Verified core of a command-line lookup tool for Twitch channels, users and chats.
//!
//! The library turns upstream API answers into view models and display text.
//! Network access, configuration storage and terminal styling live outside it.
pub mod cli;
pub mod config;
pub mod decapi;
pub mod deser;
pub mod error;
pub mod format;
pub mod helix;
pub mod leppunen;
pub mod report;
pub mod text;
pub mod tmi;
