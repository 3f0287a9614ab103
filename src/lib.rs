//! A minimal HTTP greeting service: the port it listens on, the address it
//! announces, its route table and the JSON it answers with.
pub mod addr;
pub mod config;
pub mod http;
pub mod json;
pub mod text;
