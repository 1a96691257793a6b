pub mod clock;
pub mod error;
pub mod gate;
pub mod handlers;
pub mod jwt;
pub mod password;
pub mod store;
pub mod user;
