use vstd::prelude::*;
use vstd::string::*;
use crate::json::key_id::{key_id_text, KeyId};
use crate::text::joined;

verus! {

/// The body of a request for keys by identifier: the identifiers, in the
/// order in which the caller gave them.
#[derive(Debug, PartialEq, Eq, Clone)]
pub struct KeysByIdsRequest<'a> {
    pub key_ids: Vec<KeyId<'a>>,
}

/// The JSON objects that name the keys `ids`, one for one.
pub open spec fn key_id_texts(ids: Seq<Seq<char>>) -> Seq<Seq<char>> {
    Seq::new(ids.len(), |i: int| key_id_text(ids[i]))
}

/// The body that asks for the keys `ids`.
pub open spec fn keys_by_ids_text(ids: Seq<Seq<char>>) -> Seq<char> {
    "{\"key_IDs\":["@ + joined(key_id_texts(ids)) + "]}"@
}

impl<'a> KeysByIdsRequest<'a> {
    /// The identifiers that the request names.
    pub open spec fn ids(&self) -> Seq<Seq<char>> {
        Seq::new(self.key_ids@.len(), |i: int| self.key_ids@[i].key_id@)
    }

    /// Writes the request as a JSON document.
    pub fn to_json(&self) -> (r: String)
        ensures
            r@ == keys_by_ids_text(self.ids()),
    {
        let mut r = String::from_str("{\"key_IDs\":[");
        let ghost head = r@;
        let ghost parts = key_id_texts(self.ids());
        let mut i: usize = 0;
        while i < self.key_ids.len()
            invariant
                i <= self.key_ids.len(),
                head == "{\"key_IDs\":["@,
                parts == key_id_texts(self.ids()),
                parts.len() == self.key_ids@.len(),
                r@ == head + joined(parts.take(i as int)),
            decreases self.key_ids.len() - i,
        {
            let ghost before = r@;
            if i > 0 {
                r.append(",");
            }
            r.append(self.key_ids[i].to_json().as_str());
            proof {
                crate::text::lemma_joined_step(parts, i as int);
                assert(parts[i as int] == key_id_text(self.key_ids@[i as int].key_id@));
                assert(r@ =~= head + joined(parts.take(i as int + 1)));
            }
            i += 1;
        }
        assert(parts.take(i as int) =~= parts);
        r.append("]}");
        r
    }
}

} // verus!
