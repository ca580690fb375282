use vstd::prelude::*;
use vstd::string::*;
use crate::json::value::{json_string_literal, string_literal};
use crate::text::{decimal_digits, decimal_text, joined, lemma_joined_step};

verus! {

#[verifier::external_type_specification]
#[verifier::external_body]
#[verifier::reject_recursive_types(K)]
#[verifier::reject_recursive_types(V)]
pub struct ExJsonObject<K, V>(serde_json::Map<K, V>);

/// The JSON text that writes an object.
pub uninterp spec fn json_object_text(object: serde_json::Map<String, serde_json::Value>) -> Seq<
    char,
>;

/// `serde_json::to_string` of an object: the text that writes it. Every
/// object that `serde_json` can hold can be written.
#[verifier::external_body]
pub(crate) fn object_text(object: &serde_json::Map<String, serde_json::Value>) -> (r: String)
    ensures
        r@ == json_object_text(*object),
{
    serde_json::to_string(object).unwrap_or_default()
}

/// The body of a request for new keys.
#[derive(Debug, PartialEq, Eq, Clone)]
pub struct KeyRequest<'a> {
    /// How many keys are asked for.
    pub number: u32,
    /// The size of each key in bits; the server's default where absent.
    pub size: Option<u32>,
    /// Further applications that may fetch the same keys.
    pub additional_target_sae_ids: &'a [&'a str],
    /// Vendor extensions that the server must understand.
    pub extension_mandatory: Option<&'a [serde_json::Map<String, serde_json::Value>]>,
}

/// The string literals that write `ids`, one for one.
pub open spec fn id_literals(ids: Seq<&str>) -> Seq<Seq<char>> {
    Seq::new(ids.len(), |i: int| json_string_literal(ids[i]@))
}

/// The texts that write `objects`, one for one.
pub open spec fn object_texts(
    objects: Seq<serde_json::Map<String, serde_json::Value>>,
) -> Seq<Seq<char>> {
    Seq::new(objects.len(), |i: int| json_object_text(objects[i]))
}

/// The member `size`, written only where a size is asked for.
pub open spec fn size_member(size: Option<u32>) -> Seq<char> {
    match size {
        Some(bits) => ",\"size\":"@ + decimal_digits(bits as nat),
        None => Seq::empty(),
    }
}

/// The member `extension_mandatory`, written only where extensions are given.
pub open spec fn extension_member(
    extensions: Option<Seq<serde_json::Map<String, serde_json::Value>>>,
) -> Seq<char> {
    match extensions {
        Some(objects) => ",\"extension_mandatory\":["@ + joined(object_texts(objects)) + "]"@,
        None => Seq::empty(),
    }
}

/// The body that asks for `number` keys: the members in the order of the
/// fields, an absent one left out.
pub open spec fn key_request_text(
    number: u32,
    size: Option<u32>,
    ids: Seq<&str>,
    extensions: Option<Seq<serde_json::Map<String, serde_json::Value>>>,
) -> Seq<char> {
    "{\"number\":"@ + decimal_digits(number as nat) + size_member(size)
        + ",\"additional_slave_SAE_IDs\":["@ + joined(id_literals(ids)) + "]"@ + extension_member(
        extensions,
    ) + "}"@
}

impl<'a> KeyRequest<'a> {
    /// The extensions of the request as a sequence.
    pub open spec fn extensions(&self) -> Option<
        Seq<serde_json::Map<String, serde_json::Value>>,
    > {
        match self.extension_mandatory {
            Some(objects) => Some(objects@),
            None => None,
        }
    }

    /// Writes the request as a JSON document.
    pub fn to_json(&self) -> (r: String)
        ensures
            r@ == key_request_text(
                self.number,
                self.size,
                self.additional_target_sae_ids@,
                self.extensions(),
            ),
    {
        let mut r = String::from_str("{\"number\":");
        r.append(decimal_text(self.number as u128).as_str());
        match self.size {
            Some(bits) => {
                r.append(",\"size\":");
                r.append(decimal_text(bits as u128).as_str());
            },
            None => {},
        }
        r.append(",\"additional_slave_SAE_IDs\":[");
        let ghost head = r@;
        let ghost parts = id_literals(self.additional_target_sae_ids@);
        let mut i: usize = 0;
        while i < self.additional_target_sae_ids.len()
            invariant
                i <= self.additional_target_sae_ids.len(),
                parts == id_literals(self.additional_target_sae_ids@),
                r@ == head + joined(parts.take(i as int)),
            decreases self.additional_target_sae_ids.len() - i,
        {
            if i > 0 {
                r.append(",");
            }
            r.append(string_literal(self.additional_target_sae_ids[i]).as_str());
            proof {
                lemma_joined_step(parts, i as int);
                assert(r@ =~= head + joined(parts.take(i as int + 1)));
            }
            i += 1;
        }
        assert(parts.take(i as int) =~= parts);
        r.append("]");
        match self.extension_mandatory {
            Some(objects) => {
                r.append(",\"extension_mandatory\":[");
                let ghost head = r@;
                let ghost parts = object_texts(objects@);
                let mut i: usize = 0;
                while i < objects.len()
                    invariant
                        i <= objects.len(),
                        parts == object_texts(objects@),
                        r@ == head + joined(parts.take(i as int)),
                    decreases objects.len() - i,
                {
                    if i > 0 {
                        r.append(",");
                    }
                    r.append(object_text(&objects[i]).as_str());
                    proof {
                        lemma_joined_step(parts, i as int);
                        assert(r@ =~= head + joined(parts.take(i as int + 1)));
                    }
                    i += 1;
                }
                assert(parts.take(i as int) =~= parts);
                r.append("]");
            },
            None => {},
        }
        r.append("}");
        assert(r@ =~= key_request_text(
            self.number,
            self.size,
            self.additional_target_sae_ids@,
            self.extensions(),
        ));
        r
    }
}

} // verus!
