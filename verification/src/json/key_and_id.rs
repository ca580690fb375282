use vstd::prelude::*;
use crate::json::value::{field_failure, text_at, text_field};

verus! {

/// One key as the server sends it: its identifier and its bytes in Base64.
#[derive(Debug, PartialEq, Eq, Clone)]
pub struct KeyAndId {
    pub key_id: String,
    pub key: String,
}

/// The name on the wire of the first member that the entry `v` lacks or
/// holds in another form; `None` where `v` is a complete entry.
pub open spec fn missing_key_field(v: serde_json::Value) -> Option<Seq<char>> {
    if text_at(v, "key_ID"@) is None {
        Some("key_ID"@)
    } else if text_at(v, "key"@) is None {
        Some("key"@)
    } else {
        None
    }
}

/// `k` holds the identifier and the text of the entry `v`.
pub open spec fn is_key_of(v: serde_json::Value, k: KeyAndId) -> bool {
    &&& text_at(v, "key_ID"@) == Some(k.key_id@)
    &&& text_at(v, "key"@) == Some(k.key@)
}

impl KeyAndId {
    /// Reads one entry of a key container from a parsed document.
    pub fn from_json(v: &serde_json::Value) -> (r: Result<KeyAndId, String>)
        ensures
            match r {
                Ok(k) => missing_key_field(*v) is None && is_key_of(*v, k),
                Err(cause) => missing_key_field(*v) matches Some(name) && cause@ == field_failure(
                    name,
                ),
            },
    {
        let key_id = text_field(v, "key_ID")?;
        let key = text_field(v, "key")?;
        Ok(KeyAndId { key_id, key })
    }
}

} // verus!
