//! OpenCord core: Discord client protocol logic with verified contracts.
use vstd::prelude::*;

pub mod json;
pub mod urls;
pub mod time;
pub mod text;
pub mod table;
pub mod gateway;
pub mod runtime;
pub mod api_types;
pub mod routes;
pub mod auth;
pub mod storage;
pub mod http;
pub mod client;
pub mod voice;
pub mod service;
pub mod ffi;
pub mod persistence;
pub mod config;

verus! {

} // verus!
