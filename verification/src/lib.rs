//! Scenario-driven conversation and evaluation logic for practising
//! system-design interviews: how a stakeholder persona's prompt is assembled,
//! how a transcript is replayed, how the requirements of a custom scenario are
//! set from the catalog, and how the model's verdict is read.
pub mod catalog;
pub mod config;
pub mod conversation;
pub mod evaluator;
pub mod gateway;
pub mod injector;
pub mod json;
pub mod model;
pub mod persona;
pub mod responses;
pub mod text;
