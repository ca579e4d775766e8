pub mod dispatch;
pub mod light;
pub mod config;
pub mod handshake;
pub mod coordinator;
