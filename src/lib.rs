pub mod shortener;
pub mod store;
pub mod service;
pub mod laws;
