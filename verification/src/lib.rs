pub mod commands;
pub mod config;
pub mod error;
pub mod listeners;
pub mod minecraft_line;
pub mod mojang;
pub mod number;
pub mod send_rule;
pub mod text;
pub mod uuid_text;
pub mod whitelist;
