pub mod auth;
pub mod chat;
pub mod server;
pub mod session;
