//! Timestamp-driven streaming scheduler for a software-defined-radio
//! transceiver: clock tracking, burst framing, transfer interpretation and
//! block power accumulation, all as pure decisions over plain values.

pub mod burst;
pub mod clock;
pub mod config;
pub mod power;
pub mod scheduler;
pub mod setup;
pub mod tone;
pub mod transfer;
