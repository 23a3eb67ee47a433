//! Core of a chat-driven chess service: turns raw move text into a fully
//! specified move descriptor, manages one game session per origin, and guards
//! session overwrite behind a confirmation step. Legality checking, move
//! application and board rendering are delegated to the pleco rules engine.

pub mod commands;
pub mod confirm;
pub mod engine;
pub mod inference;
pub mod model;
pub mod parser;
pub mod session;
