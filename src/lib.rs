pub mod config;
pub mod dtos;
pub mod error;
pub mod models;
pub mod text;
pub mod validation;
