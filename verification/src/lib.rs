//! Dispatch and lifecycle engine of a voice-channel chime bot.
//!
//! Presence transitions are filtered into events, events are broadcast to one
//! worker per session, and an idle supervisor drops voice connections of
//! sessions that served no chime for a whole period.

pub mod activity;
pub mod attachment;
pub mod bus;
pub mod chimes;
pub mod commands;
pub mod data;
pub mod event;
pub mod handler;
pub mod interaction;
pub mod locale;
pub mod localizable;
pub mod nameable;
pub mod span;
pub mod supervisor;
pub mod worker;
