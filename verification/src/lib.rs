pub mod error;
pub mod execute;
pub mod fantoken;
pub mod msg;
pub mod policy;
pub mod state;
pub mod types;
pub mod versioning;
