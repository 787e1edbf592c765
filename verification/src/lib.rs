//! Client-side model of a media-management service's transformation URLs:
//! typed image transformations, their canonical path-segment rendering, a
//! delivery-URL builder, and a best-effort parser that decomposes an existing
//! delivery URL back into its structured parts. The upload side carries the
//! typed upload parameters and the signed form fields they produce; the HTTP
//! calls themselves belong to the embedding application.

pub mod tags;
pub mod text;
pub mod transformation;
pub mod upload;

use vstd::prelude::*;

use crate::text::{join_by, join_kv, kv_text, lemma_join_by_step};
use crate::upload::{sha1_hex, sha1_hex_of};

verus! {

/// The fixed scheme-and-host prefix of every delivery URL this crate builds.
pub open spec fn delivery_prefix() -> Seq<char> {
    "https://res.cloudinary.com/"@
}

/// A client of the older upload entry point, which takes its form fields as
/// plain key-value pairs.
pub struct Cloudinary {
    pub cloud_name: String,
    pub api_key: String,
    pub api_secret: String,
}

/// The views of a list of key-value pairs.
pub open spec fn string_pair_views(pairs: Seq<(String, String)>) -> Seq<(Seq<char>, Seq<char>)> {
    pairs.map(|i, p: (String, String)| (p.0@, p.1@))
}

/// The given pairs without every resource-type field, order kept.
pub open spec fn retained_pairs(pairs: Seq<(Seq<char>, Seq<char>)>) -> Seq<
    (Seq<char>, Seq<char>),
>
    decreases pairs.len(),
{
    if pairs.len() == 0 {
        Seq::empty()
    } else {
        retained_pairs(pairs.drop_last()) + (if pairs.last().0 == "resource_type"@ {
            Seq::empty()
        } else {
            seq![pairs.last()]
        })
    }
}

/// The value of the first resource-type field, if any.
pub open spec fn resource_type_value(pairs: Seq<(Seq<char>, Seq<char>)>) -> Option<Seq<char>>
    decreases pairs.len(),
{
    if pairs.len() == 0 {
        None
    } else {
        match resource_type_value(pairs.drop_last()) {
            Some(v) => Some(v),
            None => if pairs.last().0 == "resource_type"@ {
                Some(pairs.last().1)
            } else {
                None
            },
        }
    }
}

/// The signed payload of the older upload call: the non-resource-type fields
/// as "key=value" joined with ampersands and followed by one more ampersand
/// when any are present, then "timestamp=", the timestamp and the secret.
pub open spec fn cloudinary_signature_payload(
    pairs: Seq<(Seq<char>, Seq<char>)>,
    timestamp: Seq<char>,
    secret: Seq<char>,
) -> Seq<char> {
    let retained = retained_pairs(pairs);
    (if retained.len() > 0 {
        join_by(retained.map(|i, p: (Seq<char>, Seq<char>)| p.0 + "="@ + p.1), "&"@) + "&"@
    } else {
        Seq::empty()
    }) + "timestamp="@ + timestamp + secret
}

impl Cloudinary {
    /// A new client.
    pub fn new(api_key: String, cloud_name: String, api_secret: String) -> (r: Self)
        ensures
            r.api_key == api_key,
            r.cloud_name == cloud_name,
            r.api_secret == api_secret,
    {
        Cloudinary { api_key, api_secret, cloud_name }
    }

    /// The multipart form fields of an upload made at the given timestamp:
    /// the key and timestamp first, the resource type if one was given, the
    /// signature over the remaining fields, then those fields in order. The
    /// caller supplies the pairs unique by key.
    pub fn build_form_fields(&self, options: &Vec<(String, String)>, timestamp: &str) -> (r: Vec<
        (String, String),
    >)
        ensures
            string_pair_views(r@) == seq![
                ("api_key"@, self.api_key@),
                ("timestamp"@, timestamp@),
            ] + (match resource_type_value(string_pair_views(options@)) {
                Some(v) => seq![("resource_type"@, v)],
                None => Seq::empty(),
            }) + seq![
                (
                    "signature"@,
                    sha1_hex_of(
                        cloudinary_signature_payload(
                            string_pair_views(options@),
                            timestamp@,
                            self.api_secret@,
                        ),
                    ),
                ),
            ] + retained_pairs(string_pair_views(options@)),
    {
        let ghost model = string_pair_views(options@);
        let mut retained: Vec<(String, String)> = Vec::new();
        let mut resource: Option<String> = None;
        let mut i: usize = 0;
        while i < options.len()
            invariant
                0 <= i <= options.len(),
                model == string_pair_views(options@),
                string_pair_views(retained@) == retained_pairs(model.take(i as int)),
                match resource {
                    Some(v) => resource_type_value(model.take(i as int)) == Some(v@),
                    None => resource_type_value(model.take(i as int)) is None,
                },
            decreases options.len() - i,
        {
            proof {
                assert(model.take(i as int + 1).drop_last() =~= model.take(i as int));
            }
            if crate::text::str_eq(options[i].0.as_str(), "resource_type") {
                if resource.is_none() {
                    resource = Some(options[i].1.clone());
                }
            } else {
                retained.push((options[i].0.clone(), options[i].1.clone()));
            }
            proof {
                assert(string_pair_views(retained@) =~~= retained_pairs(model.take(i as int + 1)));
            }
            i = i + 1;
        }
        proof {
            assert(model.take(options@.len() as int) =~= model);
        }
        let mut payload = String::new();
        if retained.len() > 0 {
            payload.append(join_kv(&retained, "&").as_str());
            payload.append("&");
        }
        payload.append("timestamp=");
        payload.append(timestamp);
        payload.append(self.api_secret.as_str());
        proof {
            assert(retained@.map(|i, kv: (String, String)| kv_text(kv)) =~~= retained_pairs(
                model,
            ).map(|i, p: (Seq<char>, Seq<char>)| p.0 + "="@ + p.1));
            assert(payload@ =~= cloudinary_signature_payload(
                model,
                timestamp@,
                self.api_secret@,
            ));
        }
        let signature = sha1_hex(payload.as_str());
        let mut fields: Vec<(String, String)> = Vec::new();
        fields.push((String::from_str("api_key"), self.api_key.clone()));
        fields.push((String::from_str("timestamp"), String::from_str(timestamp)));
        if let Some(v) = resource {
            fields.push((String::from_str("resource_type"), v));
        }
        fields.push((String::from_str("signature"), signature));
        let mut j: usize = 0;
        let ghost head = string_pair_views(fields@);
        while j < retained.len()
            invariant
                0 <= j <= retained.len(),
                string_pair_views(retained@) == retained_pairs(model),
                string_pair_views(fields@) == head + retained_pairs(model).take(j as int),
            decreases retained.len() - j,
        {
            let ghost old_fields = fields@;
            fields.push((retained[j].0.clone(), retained[j].1.clone()));
            proof {
                let lhs = string_pair_views(fields@);
                let rhs = head + retained_pairs(model).take(j as int + 1);
                assert(string_pair_views(retained@).len() == retained@.len());
                assert(retained_pairs(model).len() == retained@.len());
                assert(string_pair_views(fields@).len() == fields@.len());
                assert(string_pair_views(old_fields).len() == old_fields.len());
                assert(fields@.len() == old_fields.len() + 1);
                assert(retained_pairs(model)[j as int] == string_pair_views(retained@)[j as int]);
                assert(lhs.len() == rhs.len());
                assert forall|k: int| 0 <= k < lhs.len() implies lhs[k] == rhs[k] by {
                    if k < old_fields.len() {
                        assert(lhs[k] == string_pair_views(old_fields)[k]);
                    }
                }
                assert(lhs =~= rhs);
            }
            j = j + 1;
        }
        proof {
            assert(retained_pairs(model).take(retained@.len() as int) =~~= retained_pairs(model));
            assert(string_pair_views(fields@) =~~= seq![
                ("api_key"@, self.api_key@),
                ("timestamp"@, timestamp@),
            ] + (match resource_type_value(model) {
                Some(v) => seq![("resource_type"@, v)],
                None => Seq::<(Seq<char>, Seq<char>)>::empty(),
            }) + seq![
                (
                    "signature"@,
                    sha1_hex_of(
                        cloudinary_signature_payload(model, timestamp@, self.api_secret@),
                    ),
                ),
            ] + retained_pairs(model));
        }
        fields
    }
}

} // verus!
