pub mod clock;
pub mod http;
pub mod json;
pub mod server;
pub mod socket;
pub mod source;
pub mod string_map;
pub mod text;
