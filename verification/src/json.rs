//! The values that travel in the bodies of requests and responses.

pub mod key_and_id;
pub mod key_container;
pub mod key_id;
pub mod key_request;
pub mod keys_by_ids_request;
pub mod status_response;
pub mod value;
