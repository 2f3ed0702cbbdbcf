pub mod database;
pub mod download;
pub mod http_response;
pub mod protify;
pub mod protify_http_store;
pub mod protify_store;
pub mod protify_stream;
pub mod stream;
pub mod stream_response;
