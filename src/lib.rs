pub mod mode;
pub mod store;
pub mod connection;
pub mod selector;
