pub mod text;
pub mod json;
pub mod api;
pub mod html;
pub mod response;
pub mod config;
pub mod state;
pub mod api_frontend;
