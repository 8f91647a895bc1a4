//! The setup of the application: where its files lie and how its errors
//! are reported.

pub mod config;
pub mod error;
