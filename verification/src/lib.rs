pub mod base_game;
pub mod command;
pub mod error;
pub mod event;
pub mod filter;
pub mod launch;
pub mod launcher;
pub mod metadata;
pub mod path;
pub mod pd2_updater;
pub mod settings;
pub mod state;
pub mod text;
pub mod utils;
pub mod wine_manager;
