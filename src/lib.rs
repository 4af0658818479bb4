pub mod url;
pub mod response;
pub mod client;
