pub mod authentication;
pub mod games;
pub mod handler;
pub mod service;
pub mod user;
