pub mod database;
pub mod error;
pub mod web;
