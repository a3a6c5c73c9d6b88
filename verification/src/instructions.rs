//! The instructions of the coordinator program, each as a function from the
//! accounts it is handed to the accounts it leaves behind.
//!
//! An instruction that returns an error leaves every account as it was.

pub mod add_consumer;
pub mod cancel_subscription;
pub mod close_request;
pub mod consume;
pub mod create_subscription;
pub mod fulfill;
pub mod fulfill_compressed;
pub mod fulfill_random_words;
pub mod fund_subscription;
pub mod initialize;
pub mod remove_consumer;
pub mod request;
pub mod request_compressed;
pub mod request_random_words;
pub mod request_with_callback;
pub mod update_config;
