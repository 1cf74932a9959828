//! The data that the library works on: chat turns, diagrams and projects.
pub mod chat;
pub mod diagram;
pub mod project;
