pub mod games;
pub mod handler;
pub mod ip_hash;
