pub mod mail;
pub mod message;
pub mod session;
pub mod text;
