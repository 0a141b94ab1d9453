pub mod message;
pub mod text;
pub mod command;
pub mod router;
pub mod channel;
pub mod endpoint;
pub mod handler;
pub mod server;
pub mod tls;
