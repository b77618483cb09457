pub mod database;
pub mod handlers;
pub mod json;
pub mod laws;
pub mod models;
