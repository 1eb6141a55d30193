pub mod agent;
pub mod config;
pub mod config_manager;
pub mod config_value;
pub mod events;
pub mod factory;
pub mod history;
pub mod llm;
pub mod memory;
pub mod orchestrator;
pub mod service;
pub mod state;
pub mod tables;
pub mod text;
pub mod text_file;
pub mod transformers;
pub mod tts_preprocessor;
pub mod types;
