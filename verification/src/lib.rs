//! Client-side core of a swarm-node HTTP/WebSocket API: building the wire
//! requests (URLs and headers) from typed configuration, classifying response
//! statuses, and decoding response bodies into typed results.
//!
//! The network itself is not touched here: a caller performs the request and
//! hands the status and body back to the decoders.

use vstd::prelude::*;
use vstd::string::*;

pub mod json;
pub mod pss;

verus! {

use crate::json::{
    json_document, json_str_entries, json_uint_entries, json_str_list_entries,
};

#[derive(Debug, Clone)]
pub struct BeeConfig {
    pub upload: Option<UploadConfig>,
}

/// Per-upload configuration. An absent field means "use the node's default";
/// only `pin = Some(true)` and `deferred = Some(false)` override a default,
/// so only those values emit a header.
#[derive(Debug, Clone)]
pub struct UploadConfig {
    pub stamp: String,
    pub pin: Option<bool>,
    pub tag: Option<u32>,
    pub deferred: Option<bool>,
}

/// An opaque content address returned by the node on upload.
#[derive(Debug, Clone)]
pub struct SwarmReference {
    pub ref_: String,
}

/// A progress snapshot of an upload tag.
#[derive(Debug, Clone)]
pub struct SwarmTag {
    pub uid: u32,
    pub started_at: String,
    pub total: u64,
    pub processed: u64,
    pub synced: u64,
}

/// The node's network addresses and public keys.
#[derive(Debug, Clone)]
pub struct Addresses {
    pub overlay: String,
    pub underlay: Vec<String>,
    pub ethereum: String,
    pub public_key: String,
    pub pss_public_key: String,
}

/// The error taxonomy of the client.
#[derive(Debug, Clone)]
pub enum BeeError {
    /// The request could not be built or sent; no response was obtained.
    TransportError { msg: String },
    /// The WebSocket handshake failed.
    ConnectError { msg: String },
    /// A response was obtained whose status is outside the accepted set.
    RemoteError { status: u16, body: Vec<u8> },
    /// The response body is malformed or lacks an expected field.
    DecodeError,
}

/// The generic success set of the HTTP interface: any 2xx status.
pub open spec fn is_success_status(status: u16) -> bool {
    200 <= status < 300
}

pub fn status_is_success(status: u16) -> (r: bool)
    ensures
        r == is_success_status(status),
{
    200 <= status && status < 300
}

/// The decimal rendering of `n`, most significant digit first, no sign and no
/// leading zero (a single `'0'` for zero).
pub open spec fn dec_str(n: nat) -> Seq<char>
    decreases n,
{
    if n < 10 {
        seq![dec_digit_char(n)]
    } else {
        dec_str(n / 10).push(dec_digit_char(n % 10))
    }
}

pub open spec fn dec_digit_char(d: nat) -> char {
    if d == 0 {
        '0'
    } else if d == 1 {
        '1'
    } else if d == 2 {
        '2'
    } else if d == 3 {
        '3'
    } else if d == 4 {
        '4'
    } else if d == 5 {
        '5'
    } else if d == 6 {
        '6'
    } else if d == 7 {
        '7'
    } else if d == 8 {
        '8'
    } else {
        '9'
    }
}

fn dec_digit_literal(d: u32) -> (r: &'static str)
    requires
        d < 10,
    ensures
        r@ =~= seq![dec_digit_char(d as nat)],
{
    proof {
        reveal_strlit("0");
        reveal_strlit("1");
        reveal_strlit("2");
        reveal_strlit("3");
        reveal_strlit("4");
        reveal_strlit("5");
        reveal_strlit("6");
        reveal_strlit("7");
        reveal_strlit("8");
        reveal_strlit("9");
    }
    match d {
        0 => "0",
        1 => "1",
        2 => "2",
        3 => "3",
        4 => "4",
        5 => "5",
        6 => "6",
        7 => "7",
        8 => "8",
        _ => "9",
    }
}

/// Renders `n` in decimal, as a tag identifier appears in a URL path segment
/// or a header value.
pub fn u32_to_dec(n: u32) -> (r: String)
    ensures
        r@ == dec_str(n as nat),
    decreases n,
{
    if n < 10 {
        dec_digit_literal(n).to_owned()
    } else {
        let prefix = u32_to_dec(n / 10);
        let r = prefix.concat(dec_digit_literal(n % 10));
        proof {
            assert(r@ =~= dec_str(n as nat));
        }
        r
    }
}

/// The header list of an upload request, in emission order: the stamp always,
/// `swarm-pin: true` only for an explicit `pin = Some(true)`, `swarm-tag` only
/// when a tag is attached, and `swarm-deferred: false` only for an explicit
/// `deferred = Some(false)`.
pub open spec fn upload_header_model(c: UploadConfig) -> Seq<(Seq<char>, Seq<char>)> {
    seq![("swarm-postage-batch-id"@, c.stamp@)]
        + (if c.pin == Some(true) {
            seq![("swarm-pin"@, "true"@)]
        } else {
            Seq::empty()
        })
        + (match c.tag {
            Some(t) => seq![("swarm-tag"@, dec_str(t as nat))],
            None => Seq::empty(),
        })
        + (if c.deferred == Some(false) {
            seq![("swarm-deferred"@, "false"@)]
        } else {
            Seq::empty()
        })
}

/// The views of a header list.
pub open spec fn header_views(hs: Seq<(String, String)>) -> Seq<(Seq<char>, Seq<char>)> {
    hs.map_values(|p: (String, String)| (p.0@, p.1@))
}

/// Builds the headers of an upload request from its configuration.
pub fn bytes_post_headers(config: &UploadConfig) -> (r: Vec<(String, String)>)
    ensures
        header_views(r@) == upload_header_model(*config),
{
    let mut hs: Vec<(String, String)> = Vec::new();
    hs.push(("swarm-postage-batch-id".to_owned(), config.stamp.clone()));
    if let Some(pin) = config.pin {
        if pin {
            hs.push(("swarm-pin".to_owned(), "true".to_owned()));
        }
    }
    if let Some(tag) = config.tag {
        hs.push(("swarm-tag".to_owned(), u32_to_dec(tag)));
    }
    if let Some(deferred) = config.deferred {
        if !deferred {
            hs.push(("swarm-deferred".to_owned(), "false".to_owned()));
        }
    }
    proof {
        assert(header_views(hs@) =~= upload_header_model(*config));
    }
    hs
}

/// Unless pinning is explicitly requested, no `swarm-pin` header is emitted:
/// `pin = None` and `pin = Some(false)` alike add nothing.
pub proof fn lemma_pin_header_absent(c: UploadConfig)
    requires
        c.pin != Some(true),
    ensures
        forall|i: int|
            0 <= i < upload_header_model(c).len() ==> (#[trigger] upload_header_model(c)[i]).0
                != "swarm-pin"@,
{
    lemma_header_names_distinct();
    let m = upload_header_model(c);
    assert forall|i: int| 0 <= i < m.len() implies (#[trigger] m[i]).0 != "swarm-pin"@ by {
        assert(m[i].0 == "swarm-postage-batch-id"@ || m[i].0 == "swarm-tag"@ || m[i].0
            == "swarm-deferred"@);
    }
}

/// Unless immediate upload is explicitly requested, no `swarm-deferred` header
/// is emitted: `deferred = None` and `deferred = Some(true)` alike add nothing.
pub proof fn lemma_deferred_header_absent(c: UploadConfig)
    requires
        c.deferred != Some(false),
    ensures
        forall|i: int|
            0 <= i < upload_header_model(c).len() ==> (#[trigger] upload_header_model(c)[i]).0
                != "swarm-deferred"@,
{
    lemma_header_names_distinct();
    let m = upload_header_model(c);
    assert forall|i: int| 0 <= i < m.len() implies (#[trigger] m[i]).0 != "swarm-deferred"@ by {
        assert(m[i].0 == "swarm-postage-batch-id"@ || m[i].0 == "swarm-tag"@ || m[i].0
            == "swarm-pin"@);
    }
}

/// The four header names of an upload request differ pairwise.
proof fn lemma_header_names_distinct()
    ensures
        "swarm-postage-batch-id"@ != "swarm-pin"@,
        "swarm-postage-batch-id"@ != "swarm-tag"@,
        "swarm-postage-batch-id"@ != "swarm-deferred"@,
        "swarm-pin"@ != "swarm-tag"@,
        "swarm-pin"@ != "swarm-deferred"@,
        "swarm-tag"@ != "swarm-deferred"@,
{
    reveal_strlit("swarm-postage-batch-id");
    reveal_strlit("swarm-pin");
    reveal_strlit("swarm-tag");
    reveal_strlit("swarm-deferred");
    assert("swarm-postage-batch-id"@.len() == 22);
    assert("swarm-pin"@.len() == 9);
    assert("swarm-tag"@.len() == 9);
    assert("swarm-deferred"@.len() == 14);
    assert("swarm-pin"@[6] == 'p');
    assert("swarm-tag"@[6] == 't');
}

/// The URL of an upload request.
pub fn bytes_post_url(base_uri: &str) -> (r: String)
    ensures
        r@ == base_uri@ + "/bytes"@,
{
    let mut s = base_uri.to_owned();
    s.append("/bytes");
    s
}

/// The URL of a download request for the given content address.
pub fn bytes_get_url(base_uri: &str, ref_: &str) -> (r: String)
    ensures
        r@ == base_uri@ + "/bytes/"@ + ref_@,
{
    let mut s = base_uri.to_owned();
    s.append("/bytes/");
    s.append(ref_);
    s
}

/// The URL of a tag-creation request.
pub fn tag_post_url(base_uri: &str) -> (r: String)
    ensures
        r@ == base_uri@ + "/tags"@,
{
    let mut s = base_uri.to_owned();
    s.append("/tags");
    s
}

/// The URL of a tag-polling request for the given tag identifier.
pub fn get_tag_url(base_uri: &str, tag: u32) -> (r: String)
    ensures
        r@ == base_uri@ + "/tags/"@ + dec_str(tag as nat),
{
    let mut s = base_uri.to_owned();
    s.append("/tags/");
    let digits = u32_to_dec(tag);
    s.append(digits.as_str());
    s
}

/// The URL of the node-addresses query.
pub fn get_addresses_url(endpoint: &str) -> (r: String)
    ensures
        r@ == endpoint@ + "/addresses"@,
{
    let mut s = endpoint.to_owned();
    s.append("/addresses");
    s
}

/// Decodes the response of an upload: on a 2xx status the body must be a JSON
/// document with a string field `reference`; any other status is a remote
/// error carrying that status and the body verbatim.
pub fn bytes_post_response(status: u16, body: Vec<u8>) -> (r: Result<SwarmReference, BeeError>)
    ensures
        !is_success_status(status) ==> r == Err::<SwarmReference, BeeError>(
            BeeError::RemoteError { status, body },
        ),
        is_success_status(status) ==> match r {
            Ok(sr) => json_document(body@) && json_str_entries(body@).contains_key("reference"@)
                && sr.ref_@ == json_str_entries(body@)["reference"@],
            Err(e) => e == BeeError::DecodeError && !(json_document(body@)
                && json_str_entries(body@).contains_key("reference"@)),
        },
{
    if !status_is_success(status) {
        return Err(BeeError::RemoteError { status, body });
    }
    match crate::json::parse_json(body.as_slice()) {
        Some(v) => match crate::json::get_str_entry(&v, "reference") {
            Some(s) => Ok(SwarmReference { ref_: s }),
            None => Err(BeeError::DecodeError),
        },
        None => Err(BeeError::DecodeError),
    }
}

/// Decodes the response of a download: on a 2xx status the body is returned
/// verbatim together with the content type, defaulted to
/// `application/octet-stream` when the response named none; any other status
/// is a remote error carrying that status and the body verbatim.
pub fn bytes_get_response(status: u16, body: Vec<u8>, content_type: Option<String>) -> (r: Result<
    (Vec<u8>, String),
    BeeError,
>)
    ensures
        !is_success_status(status) ==> r == Err::<(Vec<u8>, String), BeeError>(
            BeeError::RemoteError { status, body },
        ),
        is_success_status(status) ==> match r {
            Ok((data, ct)) => data == body && match content_type {
                Some(c) => ct == c,
                None => ct@ == "application/octet-stream"@,
            },
            Err(_) => false,
        },
{
    if !status_is_success(status) {
        return Err(BeeError::RemoteError { status, body });
    }
    let ct = match content_type {
        Some(c) => c,
        None => "application/octet-stream".to_owned(),
    };
    Ok((body, ct))
}

/// What a tag response body must hold: a JSON document with an integer `uid`
/// that fits a `u32`, a string `startedAt`, and integers `total`, `processed`
/// and `synced`.
pub open spec fn tag_body_ok(b: Seq<u8>) -> bool {
    &&& json_document(b)
    &&& json_uint_entries(b).contains_key("uid"@)
    &&& json_uint_entries(b)["uid"@] <= u32::MAX
    &&& json_str_entries(b).contains_key("startedAt"@)
    &&& json_uint_entries(b).contains_key("total"@)
    &&& json_uint_entries(b).contains_key("processed"@)
    &&& json_uint_entries(b).contains_key("synced"@)
}

/// Decodes the response of a tag creation or poll: on a 2xx status the body
/// must be a full tag object; any other status is a remote error carrying
/// that status and the body verbatim.
pub fn tag_response(status: u16, body: Vec<u8>) -> (r: Result<SwarmTag, BeeError>)
    ensures
        !is_success_status(status) ==> r == Err::<SwarmTag, BeeError>(
            BeeError::RemoteError { status, body },
        ),
        is_success_status(status) ==> match r {
            Ok(t) => tag_body_ok(body@) && t.uid as u64 == json_uint_entries(body@)["uid"@]
                && t.started_at@ == json_str_entries(body@)["startedAt"@] && t.total
                == json_uint_entries(body@)["total"@] && t.processed == json_uint_entries(
                body@,
            )["processed"@] && t.synced == json_uint_entries(body@)["synced"@],
            Err(e) => e == BeeError::DecodeError && !tag_body_ok(body@),
        },
{
    if !status_is_success(status) {
        return Err(BeeError::RemoteError { status, body });
    }
    let v = match crate::json::parse_json(body.as_slice()) {
        Some(v) => v,
        None => {
            return Err(BeeError::DecodeError);
        },
    };
    let uid64 = match crate::json::get_uint_entry(&v, "uid") {
        Some(n) => n,
        None => {
            return Err(BeeError::DecodeError);
        },
    };
    if uid64 > u32::MAX as u64 {
        return Err(BeeError::DecodeError);
    }
    let started_at = match crate::json::get_str_entry(&v, "startedAt") {
        Some(s) => s,
        None => {
            return Err(BeeError::DecodeError);
        },
    };
    let total = match crate::json::get_uint_entry(&v, "total") {
        Some(n) => n,
        None => {
            return Err(BeeError::DecodeError);
        },
    };
    let processed = match crate::json::get_uint_entry(&v, "processed") {
        Some(n) => n,
        None => {
            return Err(BeeError::DecodeError);
        },
    };
    let synced = match crate::json::get_uint_entry(&v, "synced") {
        Some(n) => n,
        None => {
            return Err(BeeError::DecodeError);
        },
    };
    Ok(SwarmTag { uid: uid64 as u32, started_at, total, processed, synced })
}

/// A string field that the node may serve under a camel-case or a snake-case
/// key; the camel-case spelling wins when both are present.
pub open spec fn aliased_str_entry(b: Seq<u8>, camel: Seq<char>, snake: Seq<char>) -> Option<
    Seq<char>,
> {
    if json_str_entries(b).contains_key(camel) {
        Some(json_str_entries(b)[camel])
    } else if json_str_entries(b).contains_key(snake) {
        Some(json_str_entries(b)[snake])
    } else {
        None
    }
}

/// What an addresses response body must hold: a JSON document with string
/// fields `overlay` and `ethereum`, an array of strings `underlay`, and the
/// two public keys under either spelling.
pub open spec fn addresses_body_ok(b: Seq<u8>) -> bool {
    &&& json_document(b)
    &&& json_str_entries(b).contains_key("overlay"@)
    &&& json_str_list_entries(b).contains_key("underlay"@)
    &&& json_str_entries(b).contains_key("ethereum"@)
    &&& aliased_str_entry(b, "publicKey"@, "public_key"@) is Some
    &&& aliased_str_entry(b, "pssPublicKey"@, "pss_public_key"@) is Some
}

/// Decodes the body of an addresses response into the full address object.
/// The status is not consulted: a body that does not decode is a decode
/// error, whatever the status was.
pub fn get_addresses_response(body: Vec<u8>) -> (r: Result<Addresses, BeeError>)
    ensures
        match r {
            Ok(a) => addresses_body_ok(body@) && a.overlay@ == json_str_entries(body@)["overlay"@]
                && a.underlay.deep_view() == json_str_list_entries(body@)["underlay"@]
                && a.ethereum@ == json_str_entries(body@)["ethereum"@] && Some(a.public_key@)
                == aliased_str_entry(body@, "publicKey"@, "public_key"@) && Some(a.pss_public_key@)
                == aliased_str_entry(body@, "pssPublicKey"@, "pss_public_key"@),
            Err(e) => e == BeeError::DecodeError && !addresses_body_ok(body@),
        },
{
    let v = match crate::json::parse_json(body.as_slice()) {
        Some(v) => v,
        None => {
            return Err(BeeError::DecodeError);
        },
    };
    let overlay = match crate::json::get_str_entry(&v, "overlay") {
        Some(s) => s,
        None => {
            return Err(BeeError::DecodeError);
        },
    };
    let underlay = match crate::json::get_str_list_entry(&v, "underlay") {
        Some(xs) => xs,
        None => {
            return Err(BeeError::DecodeError);
        },
    };
    let ethereum = match crate::json::get_str_entry(&v, "ethereum") {
        Some(s) => s,
        None => {
            return Err(BeeError::DecodeError);
        },
    };
    let public_key = match crate::json::get_str_entry(&v, "publicKey") {
        Some(s) => s,
        None => match crate::json::get_str_entry(&v, "public_key") {
            Some(s) => s,
            None => {
                return Err(BeeError::DecodeError);
            },
        },
    };
    let pss_public_key = match crate::json::get_str_entry(&v, "pssPublicKey") {
        Some(s) => s,
        None => match crate::json::get_str_entry(&v, "pss_public_key") {
            Some(s) => s,
            None => {
                return Err(BeeError::DecodeError);
            },
        },
    };
    Ok(Addresses { overlay, underlay, ethereum, public_key, pss_public_key })
}

} // verus!
