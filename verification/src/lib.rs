//! Verified core of the Nestr command-line client.

pub mod text;
pub mod validation;
pub mod safety;
pub mod config;
pub mod oauth;
pub mod keyring_store;
pub mod api_client;
pub mod json;
pub mod views;
pub mod render;
pub mod commands;
pub mod cli;
