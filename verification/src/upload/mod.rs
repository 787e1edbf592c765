//! The upload API: its optional parameters, the shapes of its responses,
//! and the signed multipart form fields of an upload or destroy call. The
//! HTTP requests themselves are the embedding application's job.

pub mod access_mode;
pub mod allowed_headers;
pub mod background_removal;
pub mod categorizations;
pub mod delivery_type;
pub mod moderation;
pub mod options;
pub mod raw_convert;
pub mod resource_type;
pub mod responsive_breakpoints;
pub mod result;

pub use self::access_mode::AccessModes;
pub use self::allowed_headers::AllowedHeaders;
pub use self::background_removal::BackgroundRemoval;
pub use self::categorizations::Categorizations;
pub use self::delivery_type::DeliveryType;
pub use self::moderation::Moderation;
pub use self::options::OptionalParameters;
pub use self::raw_convert::RawConvert;
pub use self::resource_type::ResourceTypes;
pub use self::responsive_breakpoints::ResponsiveBreakpoints;

use sha1::Digest;

use vstd::prelude::*;

use crate::text::str_eq;
use self::options::pair_spec;

verus! {

/// The SHA-1 digest of a string's bytes; the result depends on the input
/// alone.
pub uninterp spec fn sha1_of(s: Seq<char>) -> Seq<u8>;

/// Relies on sha1's Sha1 digest (new, update, finalize): the twenty-byte
/// digest of the input's bytes, a function of the input alone.
#[verifier::external_body]
pub(crate) fn sha1_digest(data: &str) -> (r: Vec<u8>)
    ensures
        r@ == sha1_of(data@),
{
    let mut hasher = sha1::Sha1::new();
    hasher.update(data.as_bytes());
    hasher.finalize().to_vec()
}

/// What the SHA-1 digest of a string's bytes reads as lowercase hex.
pub open spec fn sha1_hex_of(s: Seq<char>) -> Seq<char> {
    crate::text::bytes_hex(sha1_of(s))
}

/// The lowercase-hex SHA-1 digest of a string's bytes.
pub(crate) fn sha1_hex(data: &str) -> (r: String)
    ensures
        r@ == sha1_hex_of(data@),
{
    let digest = sha1_digest(data);
    crate::text::bytes_hex_token(&digest)
}

/// A client of the upload API.
pub struct Upload {
    pub cloud_name: String,
    pub api_key: String,
    pub api_secret: String,
}

/// The views of a list of form fields.
pub open spec fn field_views(fields: Seq<(String, String)>) -> Seq<(Seq<char>, Seq<char>)> {
    fields.map(|i, f: (String, String)| (f.0@, f.1@))
}

/// The hashed text of one optional parameter: its "key=value" form followed
/// by an ampersand, or nothing for the resource type, which is the one field
/// excluded from the signed set.
pub open spec fn option_hash_text(o: OptionalParameters) -> Seq<char> {
    let p = pair_spec(o);
    if p.0 == "resource_type"@ {
        Seq::empty()
    } else {
        p.0 + "="@ + p.1 + "&"@
    }
}

/// The hashed text of the optional parameters, in order.
pub open spec fn options_hash_text(opts: Seq<OptionalParameters>) -> Seq<char>
    decreases opts.len(),
{
    if opts.len() == 0 {
        Seq::empty()
    } else {
        options_hash_text(opts.drop_last()) + option_hash_text(opts.last())
    }
}

/// The signed payload of an upload or destroy call: every non-resource-type
/// field as "key=value&", in order, then "timestamp=", the timestamp and the
/// secret.
pub open spec fn upload_signature_payload(
    opts: Seq<OptionalParameters>,
    timestamp: Seq<char>,
    secret: Seq<char>,
) -> Seq<char> {
    options_hash_text(opts) + "timestamp="@ + timestamp + secret
}

/// The key-value pairs of the optional parameters, in order.
pub open spec fn option_pairs(opts: Seq<OptionalParameters>) -> Seq<(Seq<char>, Seq<char>)> {
    opts.map(|i, o: OptionalParameters| pair_spec(o))
}

/// The endpoint of an image upload for the given namespace.
pub open spec fn image_upload_endpoint(cloud_name: Seq<char>) -> Seq<char> {
    "https://api.cloudinary.com/v1_1/"@ + cloud_name + "/image/upload"@
}

/// The endpoint of an image destroy for the given namespace.
pub open spec fn image_destroy_endpoint(cloud_name: Seq<char>) -> Seq<char> {
    "https://api.cloudinary.com/v1_1/"@ + cloud_name + "/image/destroy"@
}

impl Upload {
    /// A new client of the upload API.
    pub fn new(api_key: String, cloud_name: String, api_secret: String) -> (r: Self)
        ensures
            r.api_key == api_key,
            r.cloud_name == cloud_name,
            r.api_secret == api_secret,
    {
        Upload { api_key, api_secret, cloud_name }
    }

    /// The URL that an image upload is posted to.
    pub fn upload_url(&self) -> (r: String)
        ensures
            r@ == image_upload_endpoint(self.cloud_name@),
    {
        let mut url = String::from_str("https://api.cloudinary.com/v1_1/");
        url.append(self.cloud_name.as_str());
        url.append("/image/upload");
        url
    }

    /// The URL that an image destroy is posted to.
    pub fn destroy_url(&self) -> (r: String)
        ensures
            r@ == image_destroy_endpoint(self.cloud_name@),
    {
        let mut url = String::from_str("https://api.cloudinary.com/v1_1/");
        url.append(self.cloud_name.as_str());
        url.append("/image/destroy");
        url
    }

    /// The multipart form fields of an upload or destroy call made at the
    /// given timestamp: every optional parameter as a field, in order, then
    /// the signature over the non-resource-type fields, the key, and the
    /// timestamp. The caller supplies the options sorted and unique by key,
    /// as the remote contract asks.
    pub fn build_form_fields(&self, options: &Vec<OptionalParameters>, timestamp: &str) -> (r: Vec<
        (String, String),
    >)
        ensures
            field_views(r@) == option_pairs(options@) + seq![
                (
                    "signature"@,
                    sha1_hex_of(
                        upload_signature_payload(options@, timestamp@, self.api_secret@),
                    ),
                ),
                ("api_key"@, self.api_key@),
                ("timestamp"@, timestamp@),
            ],
    {
        let mut fields: Vec<(String, String)> = Vec::new();
        let mut payload = String::new();
        let mut i: usize = 0;
        while i < options.len()
            invariant
                0 <= i <= options.len(),
                field_views(fields@) == option_pairs(options@).take(i as int),
                payload@ == options_hash_text(options@.take(i as int)),
            decreases options.len() - i,
        {
            proof {
                assert(options@.take(i as int + 1).drop_last() =~= options@.take(i as int));
            }
            let (k, v) = options[i].get_pair();
            if !str_eq(k.as_str(), "resource_type") {
                payload.append(k.as_str());
                payload.append("=");
                payload.append(v.as_str());
                payload.append("&");
            }
            let ghost old_fields = fields@;
            fields.push((k, v));
            proof {
                assert(payload@ =~= options_hash_text(options@.take(i as int + 1)));
                assert(field_views(old_fields).len() == old_fields.len());
                assert(field_views(fields@).len() == fields@.len());
                assert(option_pairs(options@).len() == options@.len());
                assert(fields@.len() == old_fields.len() + 1);
                assert(field_views(fields@) =~~= option_pairs(options@).take(i as int + 1));
            }
            i = i + 1;
        }
        proof {
            assert(options@.take(options@.len() as int) =~= options@);
            assert(option_pairs(options@).take(options@.len() as int) =~~= option_pairs(options@));
        }
        payload.append("timestamp=");
        payload.append(timestamp);
        payload.append(self.api_secret.as_str());
        let signature = sha1_hex(payload.as_str());
        fields.push((String::from_str("signature"), signature));
        fields.push((String::from_str("api_key"), self.api_key.clone()));
        fields.push((String::from_str("timestamp"), String::from_str(timestamp)));
        proof {
            assert(field_views(fields@) =~~= option_pairs(options@) + seq![
                (
                    "signature"@,
                    sha1_hex_of(
                        upload_signature_payload(options@, timestamp@, self.api_secret@),
                    ),
                ),
                ("api_key"@, self.api_key@),
                ("timestamp"@, timestamp@),
            ]);
        }
        fields
    }
}

} // verus!
