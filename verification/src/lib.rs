pub mod cli;
pub mod code;
pub mod commands;
pub mod config;
pub mod lock;
pub mod products;
pub mod roblox;
pub mod text;
