use vstd::prelude::*;
use crate::json::key_and_id::{is_key_of, missing_key_field, KeyAndId};
use crate::json::value::{as_items, field_failure, field_failure_text, items_at, member};

verus! {

/// The list of keys that answers both kinds of key request.
#[derive(Debug, PartialEq, Eq, Clone)]
pub struct KeyContainer {
    pub keys: Vec<KeyAndId>,
}

/// `i` is the place of the first of `items` that is no complete entry.
pub open spec fn is_first_broken_entry(items: Seq<serde_json::Value>, i: int) -> bool {
    &&& 0 <= i < items.len()
    &&& missing_key_field(items[i]) is Some
    &&& forall|j: int| 0 <= j < i ==> missing_key_field(#[trigger] items[j]) is None
}

/// `keys` holds what `items` hold, entry for entry.
pub open spec fn are_keys_of(items: Seq<serde_json::Value>, keys: Seq<KeyAndId>) -> bool {
    &&& keys.len() == items.len()
    &&& forall|i: int| 0 <= i < items.len() ==> is_key_of(items[i], #[trigger] keys[i])
}

/// `cause` says why `v` is no key container: it has no array called `keys`,
/// or the array has an entry that is not complete, and then the first such
/// entry decides.
pub open spec fn is_container_failure(v: serde_json::Value, cause: Seq<char>) -> bool {
    match items_at(v, "keys"@) {
        None => cause == field_failure("keys"@),
        Some(items) => exists|i: int|
            is_first_broken_entry(items, i) && Some(cause) == match missing_key_field(items[i]) {
                Some(name) => Some(field_failure(name)),
                None => None,
            },
    }
}

impl KeyContainer {
    /// Reads a key container from a parsed document.
    pub fn from_json(v: &serde_json::Value) -> (r: Result<KeyContainer, String>)
        ensures
            match r {
                Ok(kc) => items_at(*v, "keys"@) matches Some(items) && are_keys_of(
                    items,
                    kc.keys@,
                ),
                Err(cause) => is_container_failure(*v, cause@),
            },
    {
        let items = match member(v, "keys") {
            Some(m) => match as_items(m) {
                Some(items) => items,
                None => {
                    return Err(field_failure_text("keys"));
                },
            },
            None => {
                return Err(field_failure_text("keys"));
            },
        };
        let mut keys: Vec<KeyAndId> = Vec::with_capacity(items.len());
        let mut i: usize = 0;
        while i < items.len()
            invariant
                i <= items.len(),
                items_at(*v, "keys"@) == Some(items@),
                keys@.len() == i,
                forall|j: int| 0 <= j < i ==> is_key_of(items@[j], #[trigger] keys@[j]),
                forall|j: int| 0 <= j < i ==> missing_key_field(#[trigger] items@[j]) is None,
            decreases items.len() - i,
        {
            match KeyAndId::from_json(&items[i]) {
                Ok(k) => {
                    keys.push(k);
                },
                Err(cause) => {
                    assert(is_first_broken_entry(items@, i as int));
                    return Err(cause);
                },
            }
            i += 1;
        }
        Ok(KeyContainer { keys })
    }
}

} // verus!
