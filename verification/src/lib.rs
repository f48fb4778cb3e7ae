pub mod agent;
pub mod agent_policy;
pub mod agent_stream;
pub mod app_context;
pub mod chunk_json;
pub mod cli;
pub mod confirmation;
pub mod custom_instructions;
pub mod git_ops;
pub mod grok_client;
pub mod image_input;
pub mod message_projection;
pub mod onboarding;
pub mod inline_feedback;
pub mod inline_prompt;
pub mod inline_ui;
pub mod order;
pub mod protocol;
pub mod provider;
pub mod responses_adapter;
pub mod session_store;
pub mod settings;
pub mod slash_commands;
pub mod text;
pub mod tool_catalog;
pub mod tool_context;
pub mod tui;
pub mod tools;
pub mod ui;
