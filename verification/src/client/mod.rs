pub mod api_client;
pub mod encoding;
pub mod request;
