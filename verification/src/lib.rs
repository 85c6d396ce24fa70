//! Typed client binding for the ActiveCampaign contact API.
//!
//! The library computes what is to be sent and decides what follows from
//! what came back; it performs no network or environment access itself.

pub mod client;
pub mod config;
pub mod endpoints;
pub mod error;
pub mod json;
pub mod models;
pub mod request;
pub mod template;

pub use client::Client;

use client::client_headers;
use config::Config;
use vstd::prelude::*;

verus! {

/// Creates an ActiveCampaign client with the configuration `config`.
pub fn new(config: &Config) -> (client: Client)
    ensures
        client.base_url() == config.base_url(),
        client.headers() == client_headers(config),
{
    Client::new(config)
}

} // verus!
