pub mod codec;
pub mod executor;
pub mod laws;
pub mod store;
pub mod user;
