//! A typed client core for the Rackhost account console.

pub mod auth;
pub mod base;
pub mod builder;
pub mod config;
pub mod csrf;
pub mod domains;
pub mod endpoints;
pub mod error;
pub mod html;
pub mod json;
pub mod outcome;
pub mod record;
pub mod request;
mod seal;
pub mod text;
pub mod zone;
