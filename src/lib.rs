//! Token extraction for the GEL IELTS exercise API, and the data logic around it.
//!
//! The browser-driven login is a state machine ([`pipeline::Pipeline`]): it
//! names the next action to perform and advances on the outcome that the
//! caller reports. Everything that talks to a process, a browser or the network
//! stays with the caller.
//!
//! [`run`] states what holds of every run of the machine: each started server
//! is killed once, sessions are closed exactly when keepalive is off, only
//! element-wait timeouts are retried, and every run ends.

pub mod command;
pub mod config;
pub mod decimal;
pub mod error;
pub mod exercise;
pub mod ids;
pub mod library;
pub mod login;
pub mod pipeline;
pub mod run;
pub mod session;
pub mod tracker;
