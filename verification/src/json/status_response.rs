use vstd::prelude::*;
use crate::json::value::{field_failure, number_at, number_field, text_at, text_field};

verus! {

/// A status as the server writes it. The two applications are called master
/// and slave on the wire; here they are source and target, like the entities.
#[derive(Debug, PartialEq, Eq, Clone)]
pub struct StatusResponse {
    pub source_kme_id: String,
    pub target_kme_id: String,
    pub source_sae_id: String,
    pub target_sae_id: String,
    pub key_size: u32,
    pub stored_key_count: u32,
    pub max_key_count: u32,
    pub max_key_per_request: u32,
    pub max_key_size: u32,
    pub min_key_size: u32,
    pub max_sae_id_count: u32,
}

/// The name on the wire of the first member that `v` lacks or holds in
/// another form, in the order of the fields; `None` where `v` is a complete
/// status.
pub open spec fn missing_status_field(v: serde_json::Value) -> Option<Seq<char>> {
    if text_at(v, "source_KME_ID"@) is None {
        Some("source_KME_ID"@)
    } else if text_at(v, "target_KME_ID"@) is None {
        Some("target_KME_ID"@)
    } else if text_at(v, "master_SAE_ID"@) is None {
        Some("master_SAE_ID"@)
    } else if text_at(v, "slave_SAE_ID"@) is None {
        Some("slave_SAE_ID"@)
    } else if number_at(v, "key_size"@) is None {
        Some("key_size"@)
    } else if number_at(v, "stored_key_count"@) is None {
        Some("stored_key_count"@)
    } else if number_at(v, "max_key_count"@) is None {
        Some("max_key_count"@)
    } else if number_at(v, "max_key_per_request"@) is None {
        Some("max_key_per_request"@)
    } else if number_at(v, "max_key_size"@) is None {
        Some("max_key_size"@)
    } else if number_at(v, "min_key_size"@) is None {
        Some("min_key_size"@)
    } else if number_at(v, "max_SAE_ID_count"@) is None {
        Some("max_SAE_ID_count"@)
    } else {
        None
    }
}

/// `sr` holds each member of `v` in the field that the wire name stands for.
pub open spec fn is_status_of(v: serde_json::Value, sr: StatusResponse) -> bool {
    &&& text_at(v, "source_KME_ID"@) == Some(sr.source_kme_id@)
    &&& text_at(v, "target_KME_ID"@) == Some(sr.target_kme_id@)
    &&& text_at(v, "master_SAE_ID"@) == Some(sr.source_sae_id@)
    &&& text_at(v, "slave_SAE_ID"@) == Some(sr.target_sae_id@)
    &&& number_at(v, "key_size"@) == Some(sr.key_size)
    &&& number_at(v, "stored_key_count"@) == Some(sr.stored_key_count)
    &&& number_at(v, "max_key_count"@) == Some(sr.max_key_count)
    &&& number_at(v, "max_key_per_request"@) == Some(sr.max_key_per_request)
    &&& number_at(v, "max_key_size"@) == Some(sr.max_key_size)
    &&& number_at(v, "min_key_size"@) == Some(sr.min_key_size)
    &&& number_at(v, "max_SAE_ID_count"@) == Some(sr.max_sae_id_count)
}

impl StatusResponse {
    /// Reads a status from a parsed document. Members that are not named
    /// here are passed over.
    pub fn from_json(v: &serde_json::Value) -> (r: Result<StatusResponse, String>)
        ensures
            match r {
                Ok(sr) => missing_status_field(*v) is None && is_status_of(*v, sr),
                Err(cause) => missing_status_field(*v) matches Some(name) && cause@
                    == field_failure(name),
            },
    {
        let source_kme_id = text_field(v, "source_KME_ID")?;
        let target_kme_id = text_field(v, "target_KME_ID")?;
        let source_sae_id = text_field(v, "master_SAE_ID")?;
        let target_sae_id = text_field(v, "slave_SAE_ID")?;
        let key_size = number_field(v, "key_size")?;
        let stored_key_count = number_field(v, "stored_key_count")?;
        let max_key_count = number_field(v, "max_key_count")?;
        let max_key_per_request = number_field(v, "max_key_per_request")?;
        let max_key_size = number_field(v, "max_key_size")?;
        let min_key_size = number_field(v, "min_key_size")?;
        let max_sae_id_count = number_field(v, "max_SAE_ID_count")?;
        Ok(
            StatusResponse {
                source_kme_id,
                target_kme_id,
                source_sae_id,
                target_sae_id,
                key_size,
                stored_key_count,
                max_key_count,
                max_key_per_request,
                max_key_size,
                min_key_size,
                max_sae_id_count,
            },
        )
    }
}

} // verus!
