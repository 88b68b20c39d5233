pub mod client;
pub mod json;
pub mod laws;
pub mod message;
pub mod session;
pub mod transcript;
