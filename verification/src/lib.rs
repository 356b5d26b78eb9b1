use vstd::prelude::*;

pub mod json;
pub mod text;
pub mod naming;
pub mod state;
pub mod clients;
pub mod app_config;
pub mod response;
pub mod dropdown;
pub mod dto;
pub mod environment;
pub mod plan;
pub mod provisioning;
pub mod deletion;
pub mod auth;
pub mod api_models;
pub mod health;

verus! {
} // verus!
