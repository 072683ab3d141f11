//! Animation data and the scheduler that plays it.

pub mod laws;
pub mod models;
pub mod service;
