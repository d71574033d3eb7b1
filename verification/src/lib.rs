//! Verified core of the Arma Reforger server administration backend.
pub mod auth;
pub mod bindings;
pub mod branch;
pub mod config;
pub mod error;
pub mod ids;
pub mod logs;
pub mod paths;
pub mod players;
pub mod responses;
pub mod text;
pub mod workshop;
pub mod stats;
pub mod container;
pub mod image;
pub mod audit;
pub mod socket;
pub mod scenarios;
