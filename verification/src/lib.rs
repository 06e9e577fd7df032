//! Driver for the GitHub Copilot command line agent.

pub mod command;
pub mod command_laws;
pub mod driver;
pub mod environment;
pub mod event;
pub mod laws;
pub mod llm;
pub mod message;
pub mod prompt;
pub mod prompt_laws;
pub mod session;
pub mod session_laws;
pub mod text;
pub mod text_laws;
