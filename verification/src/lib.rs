//! Dispatch layer for a command-line client of a local service that exposes
//! a REST-style API and a WebSocket event feed: locator classification,
//! request building, event decoding and filtering, and terminal rendering.
#![allow(unused_imports)]

pub mod cli;
pub mod error;
pub mod json;
pub mod locator;
pub mod paint;
pub mod rest;
pub mod text;
pub mod ws;
