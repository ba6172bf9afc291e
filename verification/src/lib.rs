//! A self-hosted file drop: the rules by which uploads are accepted, stored,
//! listed, served back and deleted.

pub mod calendar;
pub mod config;
pub mod decimal;
pub mod file;
pub mod laws;
pub mod reply;
pub mod service;
pub mod size;
pub mod store;
pub mod upload;
