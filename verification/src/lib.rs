pub mod auth;
pub mod config;
pub mod error;
pub mod messages;
pub mod mime;
pub mod pages;
pub mod sql;
pub mod store;
pub mod text;
