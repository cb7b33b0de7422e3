pub mod bindings;
pub mod config;
pub mod dto;
pub mod error;
pub mod mirror;
pub mod model;
pub mod poll;
pub mod retry;
pub mod schedule;
pub mod sdk;
pub mod text;
pub mod tx;
