pub mod connection;
pub mod credential;
pub mod diagnostics;
pub mod discovery;
pub mod indicator;
pub mod provisioning;
pub mod selector;
