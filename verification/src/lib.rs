//! A bounded plan, execute, evaluate loop for an Ethereum assistant, together
//! with the bridge that lets plan steps reach an out-of-process tool server.
//!
//! Everything here computes on plain values. Completion backends, the tool
//! server process and HTTP are driven by the caller, which feeds their
//! outcomes back as events.

pub mod agent;
pub mod ethereum;
pub mod evaluator;
pub mod fence;
pub mod foundry_service;
mod ident;
pub mod json;
pub mod mcp_client;
pub mod planner;
pub mod profile;
pub mod reply;
pub mod text;
pub mod tools;
pub mod types;
pub mod wire;

