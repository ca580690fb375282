use vstd::prelude::*;
use vstd::string::*;
use crate::json::value::{json_string_literal, string_literal};

verus! {

/// The identifier of one key, as a request for keys by identifier names it.
#[derive(Debug, PartialEq, Eq, Clone)]
pub struct KeyId<'a> {
    pub key_id: &'a str,
}

/// The JSON object that names the key `key_id`.
pub open spec fn key_id_text(key_id: Seq<char>) -> Seq<char> {
    "{\"key_ID\":"@ + json_string_literal(key_id) + "}"@
}

impl<'a> KeyId<'a> {
    /// Writes the identifier as a JSON object.
    pub fn to_json(&self) -> (r: String)
        ensures
            r@ == key_id_text(self.key_id@),
    {
        let mut r = String::from_str("{\"key_ID\":");
        r.append(string_literal(self.key_id).as_str());
        r.append("}");
        r
    }
}

} // verus!
