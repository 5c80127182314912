pub mod cache;
pub mod handler;
pub mod laws;
pub mod record;
pub mod serial;
