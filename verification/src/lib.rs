//! The decisions of a network buzzer.
//!
//! A small device on a wireless network sounds a buzzer on request. This crate
//! decides what it does; reading the clock and the heap, talking to the radio
//! and the sockets, and driving the pin is left to the firmware.
//!
//! - [`connections`] counts web sockets and lets them in or turns them away.
//! - [`session`] handles one web socket; [`session_laws`] proves what holds of
//!   it over time. [`close`] holds the close frames.
//! - [`buzzer`] drives the pin in pulses for as long as pings keep coming.
//! - [`routes`] lists the requests that are served and what they do.
//! - [`status`] makes the status reply; [`watchdog`] reports from time to time.
//! - [`wifi`] keeps the station connected; [`server`] waits for the network.
//! - [`clock`] counts time in ticks.

pub mod buzzer;
pub mod clock;
pub mod close;
pub mod connections;
pub mod routes;
pub mod server;
pub mod session;
pub mod session_laws;
pub mod status;
pub mod watchdog;
pub mod wifi;
