pub mod wrapper;
pub mod factoids;
pub mod database;
pub mod text;
pub mod punishments;
pub mod commands;
pub mod config;
pub mod factoid_commands;
pub mod http;
