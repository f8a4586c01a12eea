//! A question-answering agent core: records for questions and answers,
//! answer providers (a local stub and a remote chat-completion service),
//! and the factory that picks a provider from configuration.

pub mod config;
pub mod error;
pub mod json;
pub mod openai;
pub mod provider;
pub mod record;
pub mod stub;
