pub mod http;
pub mod web_ui;
