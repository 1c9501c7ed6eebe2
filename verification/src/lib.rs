//! Verified core of the Onix desktop messenger client.
pub mod json;
pub mod models;
pub mod number;
pub mod text;
pub mod session;
pub mod config;
pub mod api;
pub mod screens;
pub mod boot;
pub mod clock;
