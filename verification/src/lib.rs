//! Verified core of the Klass API gateway: pagination, LLM governance,
//! recommendation tracking, settings coercion, taxonomy seeding, prompt
//! clarification and media publication rules.

pub mod db;
pub mod text;
pub mod json;
pub mod llm;
pub mod media_gen;
pub mod governance;
pub mod matching;
pub mod server;
