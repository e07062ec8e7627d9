//! The workspace domain.

pub mod ids;
pub mod status;
pub mod user_types;
pub mod role;
pub mod policy;
pub mod permissions;
pub mod timestamp;
pub mod credentials;
pub mod views;
pub mod membership;
pub mod user;
pub mod workspace;
pub mod errors;
pub mod guards;
pub mod ports;
pub mod service;
