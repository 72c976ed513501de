//! Daily weather notifications: the rules that turn a configuration text and a
//! forecast reply into the requests to make, with the transport left to the caller.

pub mod failure;
pub mod toml_doc;
pub mod config;
pub mod json_doc;
pub mod text;
pub mod query;
pub mod weather;
pub mod notify;
pub mod run;
