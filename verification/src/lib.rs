pub mod command;
pub mod modes;
pub mod platform;
pub mod sensors;
pub mod server;
pub mod systems;
pub mod text;
