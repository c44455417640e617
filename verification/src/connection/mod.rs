pub mod route;
pub mod route_store;
pub mod byte_stream;
pub mod coordinator;
pub mod timeout;
pub mod session;
pub mod manager;
