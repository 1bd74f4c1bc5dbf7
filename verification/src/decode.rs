use vstd::prelude::*;
use vstd::string::*;
use crate::enums::{ImageState, Compression, state_of_text, compression_of_text};
use crate::errors::ImgapiError;
use crate::ids::{ImageId, uuid_grammar, uuid_normal};
use crate::json::{JsonValue, lookup, take_field};
use crate::model::{Image, ImageError, File, User};
use crate::numbers::{is_canon_int, digits_val, parse_u32, parse_u64};
use crate::urls::{url_parse_of, rfc3339_ok, parse_url, url_to_string, rfc3339_valid};

verus! {

/// A decoding failure with a short description.
fn decode_err(what: &str) -> (r: ImgapiError)
    ensures
        r is DecodeError,
{
    ImgapiError::DecodeError(String::from_str(what))
}

// --- Field-shape predicates -------------------------------------------------

/// An optional string field: absent, null, or a string.
pub open spec fn opt_str_ok(o: Option<JsonValue>) -> bool {
    o is None || o == Some(JsonValue::Null) || o matches Some(JsonValue::Str(_))
}

/// What an optional string field decodes to.
pub open spec fn opt_str_is(o: Option<JsonValue>, out: Option<String>) -> bool {
    match out {
        Some(s) => o == Some(JsonValue::Str(s)),
        None => o is None || o == Some(JsonValue::Null),
    }
}

/// An optional boolean field: absent, null, or a boolean.
pub open spec fn opt_bool_ok(o: Option<JsonValue>) -> bool {
    o is None || o == Some(JsonValue::Null) || o matches Some(JsonValue::Bool(_))
}

pub open spec fn opt_bool_is(o: Option<JsonValue>, out: Option<bool>) -> bool {
    match out {
        Some(b) => o == Some(JsonValue::Bool(b)),
        None => o is None || o == Some(JsonValue::Null),
    }
}

/// A required unsigned number that fits in 32 bits.
pub open spec fn req_u32_ok(o: Option<JsonValue>) -> bool {
    o matches Some(JsonValue::Num(t)) && is_canon_int(t@) && digits_val(t@) <= u32::MAX
}

pub open spec fn req_u32_is(o: Option<JsonValue>, n: u32) -> bool {
    o matches Some(JsonValue::Num(t)) && is_canon_int(t@) && digits_val(t@) == n
}

/// An optional unsigned number that fits in 32 bits.
pub open spec fn opt_u32_ok(o: Option<JsonValue>) -> bool {
    o is None || o == Some(JsonValue::Null) || req_u32_ok(o)
}

pub open spec fn opt_u32_is(o: Option<JsonValue>, out: Option<u32>) -> bool {
    match out {
        Some(n) => req_u32_is(o, n),
        None => o is None || o == Some(JsonValue::Null),
    }
}

/// A required unsigned number that fits in 64 bits.
pub open spec fn req_u64_ok(o: Option<JsonValue>) -> bool {
    o matches Some(JsonValue::Num(t)) && is_canon_int(t@) && digits_val(t@) <= u64::MAX
}

pub open spec fn req_u64_is(o: Option<JsonValue>, n: u64) -> bool {
    o matches Some(JsonValue::Num(t)) && is_canon_int(t@) && digits_val(t@) == n
}

/// A required string naming an image identifier.
pub open spec fn req_uuid_ok(o: Option<JsonValue>) -> bool {
    o matches Some(JsonValue::Str(s)) && uuid_grammar(s@)
}

pub open spec fn req_uuid_is(o: Option<JsonValue>, id: ImageId) -> bool {
    o matches Some(JsonValue::Str(s)) && uuid_grammar(s@) && id@ == uuid_normal(s@)
}

/// An optional string naming an image identifier.
pub open spec fn opt_uuid_ok(o: Option<JsonValue>) -> bool {
    o is None || o == Some(JsonValue::Null) || req_uuid_ok(o)
}

pub open spec fn opt_uuid_is(o: Option<JsonValue>, out: Option<ImageId>) -> bool {
    match out {
        Some(id) => req_uuid_is(o, id),
        None => o is None || o == Some(JsonValue::Null),
    }
}

/// An optional string holding a well-formed URL.
pub open spec fn opt_url_ok(o: Option<JsonValue>) -> bool {
    o is None || o == Some(JsonValue::Null) || (o matches Some(JsonValue::Str(s)) && url_parse_of(
        s@,
    ) is Some)
}

pub open spec fn opt_url_is(o: Option<JsonValue>, out: Option<String>) -> bool {
    match out {
        Some(t) => o matches Some(JsonValue::Str(s)) && url_parse_of(s@) == Some(t@),
        None => o is None || o == Some(JsonValue::Null),
    }
}

/// An optional string holding a well-formed RFC 3339 timestamp, kept
/// verbatim.
pub open spec fn opt_datetime_ok(o: Option<JsonValue>) -> bool {
    o is None || o == Some(JsonValue::Null) || (o matches Some(JsonValue::Str(s)) && rfc3339_ok(
        s@,
    ))
}

pub open spec fn opt_datetime_is(o: Option<JsonValue>, out: Option<String>) -> bool {
    match out {
        Some(t) => o == Some(JsonValue::Str(t)) && rfc3339_ok(t@),
        None => o is None || o == Some(JsonValue::Null),
    }
}

/// A required string naming an image state, spelled exactly as the service
/// does.
pub open spec fn req_state_ok(o: Option<JsonValue>) -> bool {
    o matches Some(JsonValue::Str(s)) && state_of_text(s@) is Some
}

pub open spec fn req_state_is(o: Option<JsonValue>, st: ImageState) -> bool {
    o matches Some(JsonValue::Str(s)) && state_of_text(s@) == Some(st)
}

/// An array of strings.
pub open spec fn str_list_ok(es: Seq<JsonValue>) -> bool {
    forall|i: int| 0 <= i < es.len() ==> (#[trigger] es[i]) matches JsonValue::Str(_)
}

pub open spec fn str_list_is(es: Seq<JsonValue>, out: Seq<String>) -> bool {
    out.len() == es.len() && forall|i: int|
        0 <= i < es.len() ==> (#[trigger] es[i]) == JsonValue::Str(out[i])
}

/// An optional array of strings.
pub open spec fn opt_str_list_ok(o: Option<JsonValue>) -> bool {
    o is None || o == Some(JsonValue::Null) || (o matches Some(JsonValue::Arr(es)) && str_list_ok(
        es@,
    ))
}

pub open spec fn opt_str_list_is(o: Option<JsonValue>, out: Option<Vec<String>>) -> bool {
    match out {
        Some(ss) => o matches Some(JsonValue::Arr(es)) && str_list_is(es@, ss@),
        None => o is None || o == Some(JsonValue::Null),
    }
}

/// An array of identifier strings.
pub open spec fn uuid_list_ok(es: Seq<JsonValue>) -> bool {
    forall|i: int|
        0 <= i < es.len() ==> ((#[trigger] es[i]) matches JsonValue::Str(s) && uuid_grammar(s@))
}

pub open spec fn uuid_list_is(es: Seq<JsonValue>, out: Seq<ImageId>) -> bool {
    out.len() == es.len() && forall|i: int|
        0 <= i < es.len() ==> ((#[trigger] es[i]) matches JsonValue::Str(s) && uuid_grammar(s@)
            && out[i]@ == uuid_normal(s@))
}

pub open spec fn opt_uuid_list_ok(o: Option<JsonValue>) -> bool {
    o is None || o == Some(JsonValue::Null) || (o matches Some(JsonValue::Arr(es)) && uuid_list_ok(
        es@,
    ))
}

pub open spec fn opt_uuid_list_is(o: Option<JsonValue>, out: Option<Vec<ImageId>>) -> bool {
    match out {
        Some(ids) => o matches Some(JsonValue::Arr(es)) && uuid_list_is(es@, ids@),
        None => o is None || o == Some(JsonValue::Null),
    }
}

// --- Converters -------------------------------------------------------------

/// A required string field.
fn req_str(o: Option<JsonValue>, what: &str) -> (r: Result<String, ImgapiError>)
    ensures
        (r is Ok) == o matches Some(JsonValue::Str(_)),
        r matches Ok(s) ==> o == Some(JsonValue::Str(s)),
        r matches Err(e) ==> e is DecodeError,
{
    match o {
        Some(JsonValue::Str(s)) => Ok(s),
        _ => Err(decode_err(what)),
    }
}

/// An optional string field; null counts as absent.
fn opt_str(o: Option<JsonValue>, what: &str) -> (r: Result<Option<String>, ImgapiError>)
    ensures
        (r is Ok) == opt_str_ok(o),
        r matches Ok(out) ==> opt_str_is(o, out),
        r matches Err(e) ==> e is DecodeError,
{
    match o {
        None => Ok(None),
        Some(JsonValue::Null) => Ok(None),
        Some(JsonValue::Str(s)) => Ok(Some(s)),
        _ => Err(decode_err(what)),
    }
}

/// A required boolean field.
fn req_bool(o: Option<JsonValue>, what: &str) -> (r: Result<bool, ImgapiError>)
    ensures
        (r is Ok) == o matches Some(JsonValue::Bool(_)),
        r matches Ok(b) ==> o == Some(JsonValue::Bool(b)),
        r matches Err(e) ==> e is DecodeError,
{
    match o {
        Some(JsonValue::Bool(b)) => Ok(b),
        _ => Err(decode_err(what)),
    }
}

/// An optional boolean field; null counts as absent.
fn opt_bool(o: Option<JsonValue>, what: &str) -> (r: Result<Option<bool>, ImgapiError>)
    ensures
        (r is Ok) == opt_bool_ok(o),
        r matches Ok(out) ==> opt_bool_is(o, out),
        r matches Err(e) ==> e is DecodeError,
{
    match o {
        None => Ok(None),
        Some(JsonValue::Null) => Ok(None),
        Some(JsonValue::Bool(b)) => Ok(Some(b)),
        _ => Err(decode_err(what)),
    }
}

/// A required unsigned 32-bit number field.
fn req_u32_field(o: Option<JsonValue>, what: &str) -> (r: Result<u32, ImgapiError>)
    ensures
        (r is Ok) == req_u32_ok(o),
        r matches Ok(n) ==> req_u32_is(o, n),
        r matches Err(e) ==> e is DecodeError,
{
    match o {
        Some(JsonValue::Num(t)) => match parse_u32(t.as_str()) {
            Some(n) => Ok(n),
            None => Err(decode_err(what)),
        },
        _ => Err(decode_err(what)),
    }
}

/// An optional unsigned 32-bit number field; null counts as absent.
fn opt_u32_field(o: Option<JsonValue>, what: &str) -> (r: Result<Option<u32>, ImgapiError>)
    ensures
        (r is Ok) == opt_u32_ok(o),
        r matches Ok(out) ==> opt_u32_is(o, out),
        r matches Err(e) ==> e is DecodeError,
{
    match o {
        None => Ok(None),
        Some(JsonValue::Null) => Ok(None),
        Some(JsonValue::Num(t)) => match parse_u32(t.as_str()) {
            Some(n) => Ok(Some(n)),
            None => Err(decode_err(what)),
        },
        _ => Err(decode_err(what)),
    }
}

/// A required unsigned 64-bit number field.
fn req_u64_field(o: Option<JsonValue>, what: &str) -> (r: Result<u64, ImgapiError>)
    ensures
        (r is Ok) == req_u64_ok(o),
        r matches Ok(n) ==> req_u64_is(o, n),
        r matches Err(e) ==> e is DecodeError,
{
    match o {
        Some(JsonValue::Num(t)) => match parse_u64(t.as_str()) {
            Some(n) => Ok(n),
            None => Err(decode_err(what)),
        },
        _ => Err(decode_err(what)),
    }
}

/// A required identifier field.
fn req_uuid(o: Option<JsonValue>, what: &str) -> (r: Result<ImageId, ImgapiError>)
    ensures
        (r is Ok) == req_uuid_ok(o),
        r matches Ok(id) ==> req_uuid_is(o, id),
        r matches Err(e) ==> e is DecodeError,
{
    match o {
        Some(JsonValue::Str(s)) => match ImageId::parse(s.as_str()) {
            Ok(id) => Ok(id),
            Err(_) => Err(decode_err(what)),
        },
        _ => Err(decode_err(what)),
    }
}

/// An optional identifier field; null counts as absent.
fn opt_uuid(o: Option<JsonValue>, what: &str) -> (r: Result<Option<ImageId>, ImgapiError>)
    ensures
        (r is Ok) == opt_uuid_ok(o),
        r matches Ok(out) ==> opt_uuid_is(o, out),
        r matches Err(e) ==> e is DecodeError,
{
    match o {
        None => Ok(None),
        Some(JsonValue::Null) => Ok(None),
        Some(JsonValue::Str(s)) => match ImageId::parse(s.as_str()) {
            Ok(id) => Ok(Some(id)),
            Err(_) => Err(decode_err(what)),
        },
        _ => Err(decode_err(what)),
    }
}

/// An optional URL field; the parsed, serialized form is kept.
fn opt_url(o: Option<JsonValue>, what: &str) -> (r: Result<Option<String>, ImgapiError>)
    ensures
        (r is Ok) == opt_url_ok(o),
        r matches Ok(out) ==> opt_url_is(o, out),
        r matches Err(e) ==> e is DecodeError,
{
    match o {
        None => Ok(None),
        Some(JsonValue::Null) => Ok(None),
        Some(JsonValue::Str(s)) => match parse_url(s.as_str()) {
            Some(u) => Ok(Some(url_to_string(&u))),
            None => Err(decode_err(what)),
        },
        _ => Err(decode_err(what)),
    }
}

/// An optional timestamp field, validated and kept verbatim.
fn opt_datetime(o: Option<JsonValue>, what: &str) -> (r: Result<Option<String>, ImgapiError>)
    ensures
        (r is Ok) == opt_datetime_ok(o),
        r matches Ok(out) ==> opt_datetime_is(o, out),
        r matches Err(e) ==> e is DecodeError,
{
    match o {
        None => Ok(None),
        Some(JsonValue::Null) => Ok(None),
        Some(JsonValue::Str(s)) => {
            if rfc3339_valid(s.as_str()) {
                Ok(Some(s))
            } else {
                Err(decode_err(what))
            }
        },
        _ => Err(decode_err(what)),
    }
}

/// The required state field.
fn req_state(o: Option<JsonValue>, what: &str) -> (r: Result<ImageState, ImgapiError>)
    ensures
        (r is Ok) == req_state_ok(o),
        r matches Ok(st) ==> req_state_is(o, st),
        r matches Err(e) ==> e is DecodeError,
{
    match o {
        Some(JsonValue::Str(s)) => match ImageState::from_param(s.as_str()) {
            Some(st) => Ok(st),
            None => Err(decode_err(what)),
        },
        _ => Err(decode_err(what)),
    }
}

/// An array of strings.
fn str_list(es: &Vec<JsonValue>, what: &str) -> (r: Result<Vec<String>, ImgapiError>)
    ensures
        (r is Ok) == str_list_ok(es@),
        r matches Ok(out) ==> str_list_is(es@, out@),
        r matches Err(e) ==> e is DecodeError,
{
    let mut out: Vec<String> = Vec::new();
    let mut i: usize = 0;
    while i < es.len()
        invariant
            i <= es.len(),
            out@.len() == i,
            forall|k: int| 0 <= k < i ==> (#[trigger] es@[k]) == JsonValue::Str(out@[k]),
        decreases es.len() - i,
    {
        match &es[i] {
            JsonValue::Str(s) => out.push(s.clone()),
            _ => {
                return Err(decode_err(what));
            },
        }
        i += 1;
    }
    Ok(out)
}

/// An optional array of strings; null counts as absent.
fn opt_str_list(o: Option<JsonValue>, what: &str) -> (r: Result<
    Option<Vec<String>>,
    ImgapiError,
>)
    ensures
        (r is Ok) == opt_str_list_ok(o),
        r matches Ok(out) ==> opt_str_list_is(o, out),
        r matches Err(e) ==> e is DecodeError,
{
    match o {
        None => Ok(None),
        Some(JsonValue::Null) => Ok(None),
        Some(JsonValue::Arr(es)) => match str_list(&es, what) {
            Ok(out) => Ok(Some(out)),
            Err(e) => Err(e),
        },
        _ => Err(decode_err(what)),
    }
}

/// An array of identifier strings.
fn uuid_list(es: &Vec<JsonValue>, what: &str) -> (r: Result<Vec<ImageId>, ImgapiError>)
    ensures
        (r is Ok) == uuid_list_ok(es@),
        r matches Ok(out) ==> uuid_list_is(es@, out@),
        r matches Err(e) ==> e is DecodeError,
{
    let mut out: Vec<ImageId> = Vec::new();
    let mut i: usize = 0;
    while i < es.len()
        invariant
            i <= es.len(),
            out@.len() == i,
            forall|k: int|
                0 <= k < i ==> ((#[trigger] es@[k]) matches JsonValue::Str(s) && uuid_grammar(s@)
                    && out@[k]@ == uuid_normal(s@)),
        decreases es.len() - i,
    {
        match &es[i] {
            JsonValue::Str(s) => match ImageId::parse(s.as_str()) {
                Ok(id) => out.push(id),
                Err(_) => {
                    return Err(decode_err(what));
                },
            },
            _ => {
                return Err(decode_err(what));
            },
        }
        i += 1;
    }
    Ok(out)
}

/// An optional array of identifiers; null counts as absent.
fn opt_uuid_list(o: Option<JsonValue>, what: &str) -> (r: Result<
    Option<Vec<ImageId>>,
    ImgapiError,
>)
    ensures
        (r is Ok) == opt_uuid_list_ok(o),
        r matches Ok(out) ==> opt_uuid_list_is(o, out),
        r matches Err(e) ==> e is DecodeError,
{
    match o {
        None => Ok(None),
        Some(JsonValue::Null) => Ok(None),
        Some(JsonValue::Arr(es)) => match uuid_list(&es, what) {
            Ok(out) => Ok(Some(out)),
            Err(e) => Err(e),
        },
        _ => Err(decode_err(what)),
    }
}

// --- Object decoders ----------------------------------------------------------

/// The shape of a well-formed failure-detail object.
pub open spec fn error_ok(v: JsonValue) -> bool {
    &&& v matches JsonValue::Obj(es)
    &&& lookup(es@, "message"@) matches Some(JsonValue::Str(_))
    &&& opt_str_ok(lookup(es@, "code"@))
    &&& opt_str_ok(lookup(es@, "stack"@))
}

/// How a decoded failure detail relates to its wire object.
pub open spec fn error_matches(e: ImageError, v: JsonValue) -> bool {
    &&& v matches JsonValue::Obj(es)
    &&& lookup(es@, "message"@) == Some(JsonValue::Str(e.message))
    &&& opt_str_is(lookup(es@, "code"@), e.code)
    &&& opt_str_is(lookup(es@, "stack"@), e.stack)
}

/// Reads a failure-detail object: a required `message` and optional `code`
/// and `stack` strings.
pub fn decode_error(v: JsonValue) -> (r: Result<ImageError, ImgapiError>)
    ensures
        (r is Ok) == error_ok(v),
        r matches Ok(e) ==> error_matches(e, v),
        r matches Err(e) ==> e is DecodeError,
{
    match v {
        JsonValue::Obj(mut es) => {
            let ghost o = es@;
            let f_message = take_field(&mut es, "message");
            let f_code = take_field(&mut es, "code");
            let f_stack = take_field(&mut es, "stack");
            proof {
                reveal_strlit("message");
                reveal_strlit("code");
                reveal_strlit("stack");
                assert("message"@.len() == 7);
                assert("code"@.len() == 4);
                assert("stack"@.len() == 5);
                assert(f_message == lookup(o, "message"@));
                assert(f_code == lookup(o, "code"@));
                assert(f_stack == lookup(o, "stack"@));
            }
            let message = match req_str(f_message, "error.message must be a string") {
                Ok(s) => s,
                Err(e) => {
                    return Err(e);
                },
            };
            let code = match opt_str(f_code, "error.code must be a string") {
                Ok(c) => c,
                Err(e) => {
                    return Err(e);
                },
            };
            let stack = match opt_str(f_stack, "error.stack must be a string") {
                Ok(c) => c,
                Err(e) => {
                    return Err(e);
                },
            };
            Ok(ImageError { message, code, stack })
        },
        _ => Err(decode_err("error must be an object")),
    }
}

/// An optional failure-detail field; null counts as absent.
pub open spec fn opt_error_ok(o: Option<JsonValue>) -> bool {
    o is None || o == Some(JsonValue::Null) || (o matches Some(ev) && error_ok(ev))
}

pub open spec fn opt_error_is(o: Option<JsonValue>, out: Option<ImageError>) -> bool {
    match out {
        Some(e) => o matches Some(ev) && error_matches(e, ev),
        None => o is None || o == Some(JsonValue::Null),
    }
}

fn opt_error(o: Option<JsonValue>) -> (r: Result<Option<ImageError>, ImgapiError>)
    ensures
        (r is Ok) == opt_error_ok(o),
        r matches Ok(out) ==> opt_error_is(o, out),
        r matches Err(e) ==> e is DecodeError,
{
    match o {
        None => Ok(None),
        Some(JsonValue::Null) => Ok(None),
        Some(ev) => match decode_error(ev) {
            Ok(e) => Ok(Some(e)),
            Err(e) => Err(e),
        },
    }
}

/// The shape of a well-formed user entry: an object with a `name` string.
pub open spec fn user_ok(v: JsonValue) -> bool {
    &&& v matches JsonValue::Obj(es)
    &&& lookup(es@, "name"@) matches Some(JsonValue::Str(_))
}

pub open spec fn user_matches(u: User, v: JsonValue) -> bool {
    &&& v matches JsonValue::Obj(es)
    &&& lookup(es@, "name"@) == Some(JsonValue::Str(u.name))
}

/// Reads one user entry.
pub fn decode_user(v: JsonValue) -> (r: Result<User, ImgapiError>)
    ensures
        (r is Ok) == user_ok(v),
        r matches Ok(u) ==> user_matches(u, v),
        r matches Err(e) ==> e is DecodeError,
{
    match v {
        JsonValue::Obj(mut es) => {
            let f_name = take_field(&mut es, "name");
            match req_str(f_name, "user.name must be a string") {
                Ok(name) => Ok(User { name }),
                Err(e) => Err(e),
            }
        },
        _ => Err(decode_err("user must be an object")),
    }
}

/// The shape of a well-formed file descriptor.
pub open spec fn file_ok(v: JsonValue) -> bool {
    &&& v matches JsonValue::Obj(es)
    &&& lookup(es@, "sha1"@) matches Some(JsonValue::Str(_))
    &&& req_u64_ok(lookup(es@, "size"@))
    &&& (lookup(es@, "compression"@) matches Some(JsonValue::Str(s)) && compression_of_text(s@)
        is Some)
    &&& opt_uuid_ok(lookup(es@, "dataset_guid"@))
    &&& opt_str_ok(lookup(es@, "digest"@))
    &&& opt_str_ok(lookup(es@, "uncompressedDigest"@))
}

/// How a decoded file descriptor relates to its wire object. The
/// administrative `stor` field is never read: it is always left unset.
pub open spec fn file_matches(f: File, v: JsonValue) -> bool {
    &&& v matches JsonValue::Obj(es)
    &&& lookup(es@, "sha1"@) == Some(JsonValue::Str(f.sha1))
    &&& req_u64_is(lookup(es@, "size"@), f.size)
    &&& (lookup(es@, "compression"@) matches Some(JsonValue::Str(s)) && compression_of_text(s@)
        == Some(f.compression))
    &&& opt_uuid_is(lookup(es@, "dataset_guid"@), f.dataset_guid)
    &&& f.stor is None
    &&& opt_str_is(lookup(es@, "digest"@), f.digest)
    &&& opt_str_is(lookup(es@, "uncompressedDigest"@), f.uncompressed_digest)
}

/// Reads one file descriptor. The wire name `uncompressedDigest` maps to
/// `uncompressed_digest`; the administrative `stor` field is ignored.
pub fn decode_file(v: JsonValue) -> (r: Result<File, ImgapiError>)
    ensures
        (r is Ok) == file_ok(v),
        r matches Ok(f) ==> file_matches(f, v),
        r matches Err(e) ==> e is DecodeError,
{
    match v {
        JsonValue::Obj(mut es) => {
            let ghost o = es@;
            let f_sha1 = take_field(&mut es, "sha1");
            let f_size = take_field(&mut es, "size");
            let f_compression = take_field(&mut es, "compression");
            let f_dataset_guid = take_field(&mut es, "dataset_guid");
            let f_digest = take_field(&mut es, "digest");
            let f_uncompressed = take_field(&mut es, "uncompressedDigest");
            proof {
                reveal_strlit("sha1");
                reveal_strlit("size");
                reveal_strlit("compression");
                reveal_strlit("dataset_guid");
                reveal_strlit("digest");
                reveal_strlit("uncompressedDigest");
                assert("sha1"@.len() == 4);
                assert("size"@.len() == 4);
                assert("compression"@.len() == 11);
                assert("dataset_guid"@.len() == 12);
                assert("digest"@.len() == 6);
                assert("uncompressedDigest"@.len() == 18);
                assert("sha1"@[1] == 'h');
                assert("size"@[1] == 'i');
                assert(f_sha1 == lookup(o, "sha1"@));
                assert(f_size == lookup(o, "size"@));
                assert(f_compression == lookup(o, "compression"@));
                assert(f_dataset_guid == lookup(o, "dataset_guid"@));
                assert(f_digest == lookup(o, "digest"@));
                assert(f_uncompressed == lookup(o, "uncompressedDigest"@));
            }
            let sha1 = match req_str(f_sha1, "file.sha1 must be a string") {
                Ok(s) => s,
                Err(e) => {
                    return Err(e);
                },
            };
            let size = match req_u64_field(f_size, "file.size must be an unsigned integer") {
                Ok(n) => n,
                Err(e) => {
                    return Err(e);
                },
            };
            let compression = match req_compression(
                f_compression,
                "file.compression must be one of: bzip2, gzip, none",
            ) {
                Ok(c) => c,
                Err(e) => {
                    return Err(e);
                },
            };
            let dataset_guid = match opt_uuid(
                f_dataset_guid,
                "file.dataset_guid must be an identifier",
            ) {
                Ok(d) => d,
                Err(e) => {
                    return Err(e);
                },
            };
            let digest = match opt_str(f_digest, "file.digest must be a string") {
                Ok(d) => d,
                Err(e) => {
                    return Err(e);
                },
            };
            let uncompressed_digest = match opt_str(
                f_uncompressed,
                "file.uncompressedDigest must be a string",
            ) {
                Ok(d) => d,
                Err(e) => {
                    return Err(e);
                },
            };
            Ok(
                File {
                    sha1,
                    size,
                    compression,
                    dataset_guid,
                    stor: None,
                    digest,
                    uncompressed_digest,
                },
            )
        },
        _ => Err(decode_err("file must be an object")),
    }
}

/// The required compression field.
fn req_compression(o: Option<JsonValue>, what: &str) -> (r: Result<Compression, ImgapiError>)
    ensures
        (r is Ok) == (o matches Some(JsonValue::Str(s)) && compression_of_text(s@) is Some),
        r matches Ok(c) ==> (o matches Some(JsonValue::Str(s)) && compression_of_text(s@) == Some(
            c,
        )),
        r matches Err(e) ==> e is DecodeError,
{
    match o {
        Some(JsonValue::Str(s)) => match Compression::from_param(s.as_str()) {
            Some(c) => Ok(c),
            None => Err(decode_err(what)),
        },
        _ => Err(decode_err(what)),
    }
}

/// A well-formed array of file descriptors.
pub open spec fn files_ok(es: Seq<JsonValue>) -> bool {
    forall|i: int| 0 <= i < es.len() ==> file_ok(#[trigger] es[i])
}

pub open spec fn files_match(out: Seq<File>, es: Seq<JsonValue>) -> bool {
    out.len() == es.len() && forall|i: int|
        0 <= i < es.len() ==> file_matches(out[i], #[trigger] es[i])
}

/// Reads an array of file descriptors; one malformed element fails the whole
/// list.
fn files_list(es: Vec<JsonValue>) -> (r: Result<Vec<File>, ImgapiError>)
    ensures
        (r is Ok) == files_ok(es@),
        r matches Ok(out) ==> files_match(out@, es@),
        r matches Err(e) ==> e is DecodeError,
{
    let ghost orig = es@;
    let mut rest = es;
    let mut out: Vec<File> = Vec::new();
    while rest.len() > 0
        invariant
            orig == es@,
            out@.len() + rest@.len() == orig.len(),
            rest@ == orig.skip(out@.len() as int),
            forall|k: int| 0 <= k < out@.len() ==> file_matches(out@[k], #[trigger] orig[k]),
        decreases rest.len(),
    {
        let ghost n = out@.len() as int;
        let head = rest.remove(0);
        proof {
            assert(head == orig[n]);
            assert(orig.skip(n).drop_first() =~= orig.skip(n + 1));
            assert(orig.skip(n).remove(0) =~= orig.skip(n).drop_first());
        }
        match decode_file(head) {
            Ok(f) => out.push(f),
            Err(e) => {
                return Err(e);
            },
        }
    }
    proof {
        assert(out@.len() == orig.len());
    }
    Ok(out)
}

/// A well-formed array of user entries.
pub open spec fn users_ok(es: Seq<JsonValue>) -> bool {
    forall|i: int| 0 <= i < es.len() ==> user_ok(#[trigger] es[i])
}

pub open spec fn users_match(out: Seq<User>, es: Seq<JsonValue>) -> bool {
    out.len() == es.len() && forall|i: int|
        0 <= i < es.len() ==> user_matches(out[i], #[trigger] es[i])
}

/// Reads an array of user entries.
fn users_list(es: Vec<JsonValue>) -> (r: Result<Vec<User>, ImgapiError>)
    ensures
        (r is Ok) == users_ok(es@),
        r matches Ok(out) ==> users_match(out@, es@),
        r matches Err(e) ==> e is DecodeError,
{
    let ghost orig = es@;
    let mut rest = es;
    let mut out: Vec<User> = Vec::new();
    while rest.len() > 0
        invariant
            orig == es@,
            out@.len() + rest@.len() == orig.len(),
            rest@ == orig.skip(out@.len() as int),
            forall|k: int| 0 <= k < out@.len() ==> user_matches(out@[k], #[trigger] orig[k]),
        decreases rest.len(),
    {
        let ghost n = out@.len() as int;
        let head = rest.remove(0);
        proof {
            assert(head == orig[n]);
            assert(orig.skip(n).drop_first() =~= orig.skip(n + 1));
            assert(orig.skip(n).remove(0) =~= orig.skip(n).drop_first());
        }
        match decode_user(head) {
            Ok(u) => out.push(u),
            Err(e) => {
                return Err(e);
            },
        }
    }
    Ok(out)
}

/// The required files field: an array of file descriptors.
pub open spec fn req_files_ok(o: Option<JsonValue>) -> bool {
    o matches Some(JsonValue::Arr(es)) && files_ok(es@)
}

pub open spec fn req_files_is(o: Option<JsonValue>, out: Seq<File>) -> bool {
    o matches Some(JsonValue::Arr(es)) && files_match(out, es@)
}

fn req_files(o: Option<JsonValue>, what: &str) -> (r: Result<Vec<File>, ImgapiError>)
    ensures
        (r is Ok) == req_files_ok(o),
        r matches Ok(out) ==> req_files_is(o, out@),
        r matches Err(e) ==> e is DecodeError,
{
    match o {
        Some(JsonValue::Arr(es)) => files_list(es),
        _ => Err(decode_err(what)),
    }
}

/// The optional users field; null counts as absent.
pub open spec fn opt_users_ok(o: Option<JsonValue>) -> bool {
    o is None || o == Some(JsonValue::Null) || (o matches Some(JsonValue::Arr(es)) && users_ok(
        es@,
    ))
}

pub open spec fn opt_users_is(o: Option<JsonValue>, out: Option<Vec<User>>) -> bool {
    match out {
        Some(us) => o matches Some(JsonValue::Arr(es)) && users_match(us@, es@),
        None => o is None || o == Some(JsonValue::Null),
    }
}

fn opt_users(o: Option<JsonValue>, what: &str) -> (r: Result<Option<Vec<User>>, ImgapiError>)
    ensures
        (r is Ok) == opt_users_ok(o),
        r matches Ok(out) ==> opt_users_is(o, out),
        r matches Err(e) ==> e is DecodeError,
{
    match o {
        None => Ok(None),
        Some(JsonValue::Null) => Ok(None),
        Some(JsonValue::Arr(es)) => match users_list(es) {
            Ok(us) => Ok(Some(us)),
            Err(e) => Err(e),
        },
        _ => Err(decode_err(what)),
    }
}

/// The optional free-form tag mapping; null counts as absent.
pub open spec fn opt_tags_ok(o: Option<JsonValue>) -> bool {
    o is None || o == Some(JsonValue::Null) || o matches Some(JsonValue::Obj(_))
}

pub open spec fn opt_tags_is(o: Option<JsonValue>, out: Option<Vec<(String, JsonValue)>>) -> bool {
    match out {
        Some(m) => o == Some(JsonValue::Obj(m)),
        None => o is None || o == Some(JsonValue::Null),
    }
}

fn opt_tags(o: Option<JsonValue>, what: &str) -> (r: Result<
    Option<Vec<(String, JsonValue)>>,
    ImgapiError,
>)
    ensures
        (r is Ok) == opt_tags_ok(o),
        r matches Ok(out) ==> opt_tags_is(o, out),
        r matches Err(e) ==> e is DecodeError,
{
    match o {
        None => Ok(None),
        Some(JsonValue::Null) => Ok(None),
        Some(JsonValue::Obj(m)) => Ok(Some(m)),
        _ => Err(decode_err(what)),
    }
}

/// What the optional free-form traits value decodes to: absent or null means
/// none, anything else passes through unchanged.
pub open spec fn opt_traits_is(o: Option<JsonValue>, out: Option<JsonValue>) -> bool {
    match out {
        Some(tv) => o == Some(tv) && !(tv is Null),
        None => o is None || o == Some(JsonValue::Null),
    }
}

fn opt_traits(o: Option<JsonValue>) -> (r: Option<JsonValue>)
    ensures
        opt_traits_is(o, r),
{
    match o {
        None => None,
        Some(JsonValue::Null) => None,
        Some(tv) => Some(tv),
    }
}

// --- The image decoder --------------------------------------------------------

/// The shape of a well-formed image object: every required field present with
/// its required type, every optional field absent, null, or of its type.
/// The wire field `type` carries the image type and `uncompressedDigest`
/// appears inside file entries; unknown fields are ignored.
pub open spec fn image_entries_ok(o: Seq<(String, JsonValue)>) -> bool {
    &&& req_u32_ok(lookup(o, "v"@))
    &&& req_uuid_ok(lookup(o, "uuid"@))
    &&& req_uuid_ok(lookup(o, "owner"@))
    &&& lookup(o, "name"@) matches Some(JsonValue::Str(_))
    &&& lookup(o, "version"@) matches Some(JsonValue::Str(_))
    &&& opt_str_ok(lookup(o, "description"@))
    &&& opt_url_ok(lookup(o, "homepage"@))
    &&& opt_url_ok(lookup(o, "eula"@))
    &&& opt_bool_ok(lookup(o, "icon"@))
    &&& req_state_ok(lookup(o, "state"@))
    &&& opt_error_ok(lookup(o, "error"@))
    &&& lookup(o, "disabled"@) matches Some(JsonValue::Bool(_))
    &&& lookup(o, "public"@) matches Some(JsonValue::Bool(_))
    &&& opt_datetime_ok(lookup(o, "published_at"@))
    &&& lookup(o, "type"@) matches Some(JsonValue::Str(_))
    &&& lookup(o, "os"@) matches Some(JsonValue::Str(_))
    &&& opt_uuid_ok(lookup(o, "origin"@))
    &&& req_files_ok(lookup(o, "files"@))
    &&& opt_uuid_list_ok(lookup(o, "acl"@))
    &&& opt_users_ok(lookup(o, "users"@))
    &&& opt_str_list_ok(lookup(o, "billing_tags"@))
    &&& opt_tags_ok(lookup(o, "tags"@))
    &&& opt_bool_ok(lookup(o, "generate_passwords"@))
    &&& opt_str_list_ok(lookup(o, "inherited_directories"@))
    &&& opt_str_ok(lookup(o, "nic_driver"@))
    &&& opt_str_ok(lookup(o, "disk_driver"@))
    &&& opt_str_ok(lookup(o, "cpu_type"@))
    &&& opt_u32_ok(lookup(o, "image_size"@))
    &&& opt_str_list_ok(lookup(o, "channels"@))
}

/// How a decoded image relates to its wire object, field by field.
pub open spec fn image_obj_matches(img: Image, o: Seq<(String, JsonValue)>) -> bool {
    &&& req_u32_is(lookup(o, "v"@), img.v)
    &&& req_uuid_is(lookup(o, "uuid"@), img.uuid)
    &&& req_uuid_is(lookup(o, "owner"@), img.owner)
    &&& lookup(o, "name"@) == Some(JsonValue::Str(img.name))
    &&& lookup(o, "version"@) == Some(JsonValue::Str(img.version))
    &&& opt_str_is(lookup(o, "description"@), img.description)
    &&& opt_url_is(lookup(o, "homepage"@), img.homepage)
    &&& opt_url_is(lookup(o, "eula"@), img.eula)
    &&& opt_bool_is(lookup(o, "icon"@), img.icon)
    &&& req_state_is(lookup(o, "state"@), img.state)
    &&& opt_error_is(lookup(o, "error"@), img.error)
    &&& lookup(o, "disabled"@) == Some(JsonValue::Bool(img.disabled))
    &&& lookup(o, "public"@) == Some(JsonValue::Bool(img.public))
    &&& opt_datetime_is(lookup(o, "published_at"@), img.published_at)
    &&& lookup(o, "type"@) == Some(JsonValue::Str(img.image_type))
    &&& lookup(o, "os"@) == Some(JsonValue::Str(img.os))
    &&& opt_uuid_is(lookup(o, "origin"@), img.origin)
    &&& req_files_is(lookup(o, "files"@), img.files@)
    &&& opt_uuid_list_is(lookup(o, "acl"@), img.acl)
    &&& opt_users_is(lookup(o, "users"@), img.users)
    &&& opt_str_list_is(lookup(o, "billing_tags"@), img.billing_tags)
    &&& opt_traits_is(lookup(o, "traits"@), img.traits)
    &&& opt_tags_is(lookup(o, "tags"@), img.tags)
    &&& opt_bool_is(lookup(o, "generate_passwords"@), img.generate_passwords)
    &&& opt_str_list_is(lookup(o, "inherited_directories"@), img.inherited_directories)
    &&& opt_str_is(lookup(o, "nic_driver"@), img.nic_driver)
    &&& opt_str_is(lookup(o, "disk_driver"@), img.disk_driver)
    &&& opt_str_is(lookup(o, "cpu_type"@), img.cpu_type)
    &&& opt_u32_is(lookup(o, "image_size"@), img.image_size)
    &&& opt_str_list_is(lookup(o, "channels"@), img.channels)
}

/// A well-formed image document: an object whose entries are well formed.
pub open spec fn image_ok(v: JsonValue) -> bool {
    v matches JsonValue::Obj(es) && image_entries_ok(es@)
}

/// How a decoded image relates to its wire document.
pub open spec fn image_matches(img: Image, v: JsonValue) -> bool {
    v matches JsonValue::Obj(es) && image_obj_matches(img, es@)
}

/// Reads one image object. Succeeds exactly on well-formed image objects; a
/// missing or ill-typed field fails the whole decode.
#[verifier::rlimit(100)]
pub fn decode_image(v: JsonValue) -> (r: Result<Image, ImgapiError>)
    ensures
        (r is Ok) == image_ok(v),
        r matches Ok(img) ==> image_matches(img, v),
        r matches Err(e) ==> e is DecodeError,
{
    let mut es = match v {
        JsonValue::Obj(es) => es,
        _ => {
            return Err(decode_err("image must be an object"));
        },
    };
    let ghost o = es@;
    let f_v = take_field(&mut es, "v");
    let f_uuid = take_field(&mut es, "uuid");
    let f_owner = take_field(&mut es, "owner");
    let f_name = take_field(&mut es, "name");
    let f_version = take_field(&mut es, "version");
    let f_description = take_field(&mut es, "description");
    let f_homepage = take_field(&mut es, "homepage");
    let f_eula = take_field(&mut es, "eula");
    let f_icon = take_field(&mut es, "icon");
    let f_state = take_field(&mut es, "state");
    let f_error = take_field(&mut es, "error");
    let f_disabled = take_field(&mut es, "disabled");
    let f_public = take_field(&mut es, "public");
    let f_published_at = take_field(&mut es, "published_at");
    let f_type = take_field(&mut es, "type");
    let f_os = take_field(&mut es, "os");
    let f_origin = take_field(&mut es, "origin");
    let f_files = take_field(&mut es, "files");
    let f_acl = take_field(&mut es, "acl");
    let f_users = take_field(&mut es, "users");
    let f_billing_tags = take_field(&mut es, "billing_tags");
    let f_traits = take_field(&mut es, "traits");
    let f_tags = take_field(&mut es, "tags");
    let f_generate_passwords = take_field(&mut es, "generate_passwords");
    let f_inherited_directories = take_field(&mut es, "inherited_directories");
    let f_nic_driver = take_field(&mut es, "nic_driver");
    let f_disk_driver = take_field(&mut es, "disk_driver");
    let f_cpu_type = take_field(&mut es, "cpu_type");
    let f_image_size = take_field(&mut es, "image_size");
    let f_channels = take_field(&mut es, "channels");
    proof {
        reveal_strlit("v");
        reveal_strlit("uuid");
        reveal_strlit("owner");
        reveal_strlit("name");
        reveal_strlit("version");
        reveal_strlit("description");
        reveal_strlit("homepage");
        reveal_strlit("eula");
        reveal_strlit("icon");
        reveal_strlit("state");
        reveal_strlit("error");
        reveal_strlit("disabled");
        reveal_strlit("public");
        reveal_strlit("published_at");
        reveal_strlit("type");
        reveal_strlit("os");
        reveal_strlit("origin");
        reveal_strlit("files");
        reveal_strlit("acl");
        reveal_strlit("users");
        reveal_strlit("billing_tags");
        reveal_strlit("traits");
        reveal_strlit("tags");
        reveal_strlit("generate_passwords");
        reveal_strlit("inherited_directories");
        reveal_strlit("nic_driver");
        reveal_strlit("disk_driver");
        reveal_strlit("cpu_type");
        reveal_strlit("image_size");
        reveal_strlit("channels");
        assert("v"@.len() == 1);
        assert("uuid"@.len() == 4);
        assert("owner"@.len() == 5);
        assert("name"@.len() == 4);
        assert("version"@.len() == 7);
        assert("description"@.len() == 11);
        assert("homepage"@.len() == 8);
        assert("eula"@.len() == 4);
        assert("icon"@.len() == 4);
        assert("state"@.len() == 5);
        assert("error"@.len() == 5);
        assert("disabled"@.len() == 8);
        assert("public"@.len() == 6);
        assert("published_at"@.len() == 12);
        assert("type"@.len() == 4);
        assert("os"@.len() == 2);
        assert("origin"@.len() == 6);
        assert("files"@.len() == 5);
        assert("acl"@.len() == 3);
        assert("users"@.len() == 5);
        assert("billing_tags"@.len() == 12);
        assert("traits"@.len() == 6);
        assert("tags"@.len() == 4);
        assert("generate_passwords"@.len() == 18);
        assert("inherited_directories"@.len() == 21);
        assert("nic_driver"@.len() == 10);
        assert("disk_driver"@.len() == 11);
        assert("cpu_type"@.len() == 8);
        assert("image_size"@.len() == 10);
        assert("channels"@.len() == 8);
        assert("uuid"@[0] == 'u');
        assert("name"@[0] == 'n');
        assert("eula"@[0] == 'e');
        assert("icon"@[0] == 'i');
        assert("type"@[0] == 't');
        assert("tags"@[0] == 't');
        assert("type"@[1] == 'y');
        assert("tags"@[1] == 'a');
        assert("owner"@[0] == 'o');
        assert("state"@[0] == 's');
        assert("error"@[0] == 'e');
        assert("files"@[0] == 'f');
        assert("users"@[0] == 'u');
        assert("homepage"@[0] == 'h');
        assert("disabled"@[0] == 'd');
        assert("cpu_type"@[0] == 'c');
        assert("channels"@[0] == 'c');
        assert("cpu_type"@[1] == 'p');
        assert("channels"@[1] == 'h');
        assert("public"@[0] == 'p');
        assert("origin"@[0] == 'o');
        assert("traits"@[0] == 't');
        assert("description"@[0] == 'd');
        assert("disk_driver"@[0] == 'd');
        assert("description"@[1] == 'e');
        assert("disk_driver"@[1] == 'i');
        assert("published_at"@[0] == 'p');
        assert("billing_tags"@[0] == 'b');
        assert("nic_driver"@[0] == 'n');
        assert("image_size"@[0] == 'i');
        assert(f_v == lookup(o, "v"@));
        assert(f_uuid == lookup(o, "uuid"@));
        assert(f_owner == lookup(o, "owner"@));
        assert(f_name == lookup(o, "name"@));
        assert(f_version == lookup(o, "version"@));
        assert(f_description == lookup(o, "description"@));
        assert(f_homepage == lookup(o, "homepage"@));
        assert(f_eula == lookup(o, "eula"@));
        assert(f_icon == lookup(o, "icon"@));
        assert(f_state == lookup(o, "state"@));
        assert(f_error == lookup(o, "error"@));
        assert(f_disabled == lookup(o, "disabled"@));
        assert(f_public == lookup(o, "public"@));
        assert(f_published_at == lookup(o, "published_at"@));
        assert(f_type == lookup(o, "type"@));
        assert(f_os == lookup(o, "os"@));
        assert(f_origin == lookup(o, "origin"@));
        assert(f_files == lookup(o, "files"@));
        assert(f_acl == lookup(o, "acl"@));
        assert(f_users == lookup(o, "users"@));
        assert(f_billing_tags == lookup(o, "billing_tags"@));
        assert(f_traits == lookup(o, "traits"@));
        assert(f_tags == lookup(o, "tags"@));
        assert(f_generate_passwords == lookup(o, "generate_passwords"@));
        assert(f_inherited_directories == lookup(o, "inherited_directories"@));
        assert(f_nic_driver == lookup(o, "nic_driver"@));
        assert(f_disk_driver == lookup(o, "disk_driver"@));
        assert(f_cpu_type == lookup(o, "cpu_type"@));
        assert(f_image_size == lookup(o, "image_size"@));
        assert(f_channels == lookup(o, "channels"@));
    }
    let img_v = match req_u32_field(f_v, "v must be an unsigned integer") {
        Ok(x) => x,
        Err(e) => {
            return Err(e);
        },
    };
    let uuid = match req_uuid(f_uuid, "uuid must be an identifier") {
        Ok(x) => x,
        Err(e) => {
            return Err(e);
        },
    };
    let owner = match req_uuid(f_owner, "owner must be an identifier") {
        Ok(x) => x,
        Err(e) => {
            return Err(e);
        },
    };
    let name = match req_str(f_name, "name must be a string") {
        Ok(x) => x,
        Err(e) => {
            return Err(e);
        },
    };
    let version = match req_str(f_version, "version must be a string") {
        Ok(x) => x,
        Err(e) => {
            return Err(e);
        },
    };
    let description = match opt_str(f_description, "description must be a string") {
        Ok(x) => x,
        Err(e) => {
            return Err(e);
        },
    };
    let homepage = match opt_url(f_homepage, "homepage must be a URL") {
        Ok(x) => x,
        Err(e) => {
            return Err(e);
        },
    };
    let eula = match opt_url(f_eula, "eula must be a URL") {
        Ok(x) => x,
        Err(e) => {
            return Err(e);
        },
    };
    let icon = match opt_bool(f_icon, "icon must be a boolean") {
        Ok(x) => x,
        Err(e) => {
            return Err(e);
        },
    };
    let state = match req_state(f_state, "state must be one of the image states") {
        Ok(x) => x,
        Err(e) => {
            return Err(e);
        },
    };
    let error = match opt_error(f_error) {
        Ok(x) => x,
        Err(e) => {
            return Err(e);
        },
    };
    let disabled = match req_bool(f_disabled, "disabled must be a boolean") {
        Ok(x) => x,
        Err(e) => {
            return Err(e);
        },
    };
    let public = match req_bool(f_public, "public must be a boolean") {
        Ok(x) => x,
        Err(e) => {
            return Err(e);
        },
    };
    let published_at = match opt_datetime(f_published_at, "published_at must be a timestamp") {
        Ok(x) => x,
        Err(e) => {
            return Err(e);
        },
    };
    let image_type = match req_str(f_type, "type must be a string") {
        Ok(x) => x,
        Err(e) => {
            return Err(e);
        },
    };
    let os = match req_str(f_os, "os must be a string") {
        Ok(x) => x,
        Err(e) => {
            return Err(e);
        },
    };
    let origin = match opt_uuid(f_origin, "origin must be an identifier") {
        Ok(x) => x,
        Err(e) => {
            return Err(e);
        },
    };
    let files = match req_files(f_files, "files must be an array of file objects") {
        Ok(x) => x,
        Err(e) => {
            return Err(e);
        },
    };
    let acl = match opt_uuid_list(f_acl, "acl must be an array of identifiers") {
        Ok(x) => x,
        Err(e) => {
            return Err(e);
        },
    };
    let users = match opt_users(f_users, "users must be an array of user objects") {
        Ok(x) => x,
        Err(e) => {
            return Err(e);
        },
    };
    let billing_tags = match opt_str_list(f_billing_tags, "billing_tags must be strings") {
        Ok(x) => x,
        Err(e) => {
            return Err(e);
        },
    };
    let traits = opt_traits(f_traits);
    let tags = match opt_tags(f_tags, "tags must be an object") {
        Ok(x) => x,
        Err(e) => {
            return Err(e);
        },
    };
    let generate_passwords = match opt_bool(
        f_generate_passwords,
        "generate_passwords must be a boolean",
    ) {
        Ok(x) => x,
        Err(e) => {
            return Err(e);
        },
    };
    let inherited_directories = match opt_str_list(
        f_inherited_directories,
        "inherited_directories must be strings",
    ) {
        Ok(x) => x,
        Err(e) => {
            return Err(e);
        },
    };
    let nic_driver = match opt_str(f_nic_driver, "nic_driver must be a string") {
        Ok(x) => x,
        Err(e) => {
            return Err(e);
        },
    };
    let disk_driver = match opt_str(f_disk_driver, "disk_driver must be a string") {
        Ok(x) => x,
        Err(e) => {
            return Err(e);
        },
    };
    let cpu_type = match opt_str(f_cpu_type, "cpu_type must be a string") {
        Ok(x) => x,
        Err(e) => {
            return Err(e);
        },
    };
    let image_size = match opt_u32_field(f_image_size, "image_size must be an unsigned integer") {
        Ok(x) => x,
        Err(e) => {
            return Err(e);
        },
    };
    let channels = match opt_str_list(f_channels, "channels must be strings") {
        Ok(x) => x,
        Err(e) => {
            return Err(e);
        },
    };
    Ok(
        Image {
            v: img_v,
            uuid,
            owner,
            name,
            version,
            description,
            homepage,
            eula,
            icon,
            state,
            error,
            disabled,
            public,
            published_at,
            image_type,
            os,
            origin,
            files,
            acl,
            users,
            billing_tags,
            traits,
            tags,
            generate_passwords,
            inherited_directories,
            nic_driver,
            disk_driver,
            cpu_type,
            image_size,
            channels,
        },
    )
}

/// A well-formed catalog listing: an array of well-formed image objects.
pub open spec fn images_ok(v: JsonValue) -> bool {
    v matches JsonValue::Arr(es) && forall|i: int| 0 <= i < es@.len() ==> image_ok(#[trigger] es@[i])
}

/// How a decoded listing relates to its wire document, element by element.
pub open spec fn images_match(out: Seq<Image>, v: JsonValue) -> bool {
    v matches JsonValue::Arr(es) && out.len() == es@.len() && forall|i: int|
        0 <= i < es@.len() ==> image_matches(out[i], #[trigger] es@[i])
}

/// Reads a catalog listing: a JSON array of image objects, decoded element by
/// element. An empty array gives an empty listing; one malformed element
/// fails the whole call, with no partial result.
pub fn decode_images(v: JsonValue) -> (r: Result<Vec<Image>, ImgapiError>)
    ensures
        (r is Ok) == images_ok(v),
        r matches Ok(out) ==> images_match(out@, v),
        r matches Err(e) ==> e is DecodeError,
{
    let es = match v {
        JsonValue::Arr(es) => es,
        _ => {
            return Err(decode_err("the response must be an array of images"));
        },
    };
    let ghost orig = es@;
    let mut rest = es;
    let mut out: Vec<Image> = Vec::new();
    while rest.len() > 0
        invariant
            (v matches JsonValue::Arr(es0) && es0@ == orig),
            out@.len() + rest@.len() == orig.len(),
            rest@ == orig.skip(out@.len() as int),
            forall|k: int| 0 <= k < out@.len() ==> image_matches(out@[k], #[trigger] orig[k]),
        decreases rest.len(),
    {
        let ghost n = out@.len() as int;
        let head = rest.remove(0);
        proof {
            assert(head == orig[n]);
            assert(orig.skip(n).drop_first() =~= orig.skip(n + 1));
            assert(orig.skip(n).remove(0) =~= orig.skip(n).drop_first());
        }
        match decode_image(head) {
            Ok(img) => out.push(img),
            Err(e) => {
                return Err(e);
            },
        }
    }
    Ok(out)
}

} // verus!
