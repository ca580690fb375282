//! Client for the ETSI GS QKD 014 key-delivery interface: the wire codec, the
//! transport configuration, the protected storage of key bytes and the rules of
//! the C-facing boundary, each with a machine-checked contract.

pub mod c;
pub mod error;
pub mod etsi014_client;
pub mod exchange;
pub mod json;
pub mod status;
pub mod store;
pub mod text;
pub mod transport;

pub use error::Error;
pub use etsi014_client::ETSI014Client;
pub use status::Status;
pub use store::SecretBytes;
