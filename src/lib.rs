//! A request/response correlation bridge over a polling, single-consumer
//! JSON message channel, with the message formats of the blockchain client.

pub mod config;
pub mod history;
pub mod json;
pub mod receiver;
pub mod request;
pub mod table;
pub mod types;
