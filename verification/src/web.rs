//! Addresses and header fields. What this module says of an address or of a
//! header field is assumed of the `url`, `http` and `headers` crates, not
//! proved: each item below names the function that it stands for.

use crate::misc::Failure;
use vstd::prelude::*;
use vstd::string::StringSliceAdditionalSpecFns;

verus! {

/// `url::Url`, a parsed address. Its value is opaque here; what is known of
/// it is its text.
#[verifier::external_type_specification]
#[verifier::external_body]
pub struct ExUrl(::url::Url);

/// `url::ParseError`, the reason why a text is no address.
#[verifier::external_type_specification]
#[verifier::external_body]
pub struct ExParseError(::url::ParseError);

/// The serialization that an address holds. Two addresses with the same
/// serialization are the same address.
pub uninterp spec fn url_text(u: ::url::Url) -> Seq<char>;

/// The serialization of the address that `input` parses to, if it is one.
pub uninterp spec fn url_parsed(input: Seq<char>) -> Option<Seq<char>>;

/// The scheme of the address with the serialization `text`.
pub uninterp spec fn url_scheme(text: Seq<char>) -> Seq<char>;

/// The user name of the address with the serialization `text`.
pub uninterp spec fn url_username(text: Seq<char>) -> Seq<char>;

/// The authority of the address with the serialization `text`.
pub uninterp spec fn url_authority(text: Seq<char>) -> Seq<char>;

/// The host of the address with the serialization `text`, if it has one.
pub uninterp spec fn url_host(text: Seq<char>) -> Option<Seq<char>>;

/// The port of the address with the serialization `text`, unless it is
/// absent or the default of the scheme.
pub uninterp spec fn url_port(text: Seq<char>) -> Option<u16>;

/// The path of the address with the serialization `text`.
pub uninterp spec fn url_path(text: Seq<char>) -> Seq<char>;

/// The serialization after the path of the address `text` was set to `path`.
pub uninterp spec fn url_with_path(text: Seq<char>, path: Seq<char>) -> Seq<char>;

/// The serialization after the port of the address `text` was set to `port`;
/// `None` where the address can have no port.
pub uninterp spec fn url_with_port(text: Seq<char>, port: Option<u16>) -> Option<Seq<char>>;

/// The serialization after `segment` was appended to the path of the address
/// `text`, a trailing empty segment having been dropped first; `None` where
/// the address cannot be a base.
pub uninterp spec fn url_with_segment(text: Seq<char>, segment: Seq<char>) -> Option<Seq<char>>;

/// The normal form of the header name `name`, if it is one.
pub uninterp spec fn header_name(name: Seq<char>) -> Option<Seq<char>>;

/// The value of the `Authorization` field for a user name and a password
/// in the basic scheme.
pub uninterp spec fn basic_authorization(username: Seq<char>, password: Seq<char>) -> Seq<char>;

/// The longest text that the operations on addresses are given.
pub const MAX_TEXT: usize = 0x0100_0000;

/// A byte that may stand in the value of a header field.
pub open spec fn is_value_byte(b: u8) -> bool {
    (b >= 32 && b != 127) || b == 9
}

/// Whether `bytes` can be the value of a header field.
pub open spec fn is_header_value(bytes: Seq<u8>) -> bool {
    forall|i: int| 0 <= i < bytes.len() ==> is_value_byte(#[trigger] bytes[i])
}

/// `Url::parse`: the address that `input` is, or the reason why it is none.
#[verifier::external_body]
pub(crate) fn url_parse(input: &str) -> (r: Result<::url::Url, ::url::ParseError>)
    ensures
        r is Ok <==> url_parsed(input@) is Some,
        r matches Ok(u) ==> url_parsed(input@) == Some(url_text(u)),
{
    ::url::Url::parse(input)
}

/// The `Display` of `url::ParseError`: the reason in words.
#[verifier::external_body]
pub(crate) fn parse_error_text(e: &::url::ParseError) -> (r: String) {
    e.to_string()
}

/// `Url::as_str`: the serialization of the address.
#[verifier::external_body]
pub(crate) fn url_as_string(u: &::url::Url) -> (r: String)
    ensures
        r@ == url_text(*u),
{
    u.as_str().to_owned()
}

/// `Clone` of `url::Url`: the same address once more.
#[verifier::external_body]
pub(crate) fn url_clone(u: &::url::Url) -> (r: ::url::Url)
    ensures
        r == *u,
{
    u.clone()
}

/// `Url::scheme`.
#[verifier::external_body]
pub(crate) fn scheme(u: &::url::Url) -> (r: String)
    ensures
        r@ == url_scheme(url_text(*u)),
{
    u.scheme().to_owned()
}

/// `Url::username`.
#[verifier::external_body]
pub(crate) fn username(u: &::url::Url) -> (r: String)
    ensures
        r@ == url_username(url_text(*u)),
{
    u.username().to_owned()
}

/// `Url::authority`.
#[verifier::external_body]
pub(crate) fn authority(u: &::url::Url) -> (r: String)
    ensures
        r@ == url_authority(url_text(*u)),
{
    u.authority().to_owned()
}

/// `Url::host_str`.
#[verifier::external_body]
pub(crate) fn host_str(u: &::url::Url) -> (r: Option<String>)
    ensures
        r is Some <==> url_host(url_text(*u)) is Some,
        r matches Some(h) ==> url_host(url_text(*u)) == Some(h@),
{
    u.host_str().map(str::to_owned)
}

/// `Url::port`.
#[verifier::external_body]
pub(crate) fn port(u: &::url::Url) -> (r: Option<u16>)
    ensures
        r == url_port(url_text(*u)),
{
    u.port()
}

/// `Url::path`.
#[verifier::external_body]
pub(crate) fn path(u: &::url::Url) -> (r: String)
    ensures
        r@ == url_path(url_text(*u)),
{
    u.path().to_owned()
}

/// `Url::set_path`. The lengths are bounded because the crate panics where
/// a serialization outgrows 32 bits.
#[verifier::external_body]
pub(crate) fn set_path(u: &mut ::url::Url, path: &str)
    requires
        url_text(*old(u)).len() <= MAX_TEXT,
        path@.len() <= MAX_TEXT,
    ensures
        url_text(*final(u)) == url_with_path(url_text(*old(u)), path@),
{
    u.set_path(path)
}

/// `Url::set_port`: whether the address took the port; it is unchanged where
/// it did not.
#[verifier::external_body]
pub(crate) fn set_port(u: &mut ::url::Url, port: Option<u16>) -> (r: bool)
    requires
        url_text(*old(u)).len() <= MAX_TEXT,
    ensures
        r <==> url_with_port(url_text(*old(u)), port) is Some,
        url_text(*final(u)) == (match url_with_port(url_text(*old(u)), port) {
            Some(t) => t,
            None => url_text(*old(u)),
        }),
{
    u.set_port(port).is_ok()
}

/// `Url::path_segments_mut`, then `PathSegmentsMut::pop_if_empty` and
/// `PathSegmentsMut::push`: whether the address can be a base; it is
/// unchanged where it cannot.
#[verifier::external_body]
pub(crate) fn push_segment(u: &mut ::url::Url, segment: &str) -> (r: bool)
    requires
        url_text(*old(u)).len() <= MAX_TEXT,
        segment@.len() <= MAX_TEXT,
    ensures
        r <==> url_with_segment(url_text(*old(u)), segment@) is Some,
        url_text(*final(u)) == (match url_with_segment(url_text(*old(u)), segment@) {
            Some(t) => t,
            None => url_text(*old(u)),
        }),
{
    match u.path_segments_mut() {
        Ok(mut segments) => {
            segments.pop_if_empty().push(segment);
            true
        },
        Err(()) => false,
    }
}

/// `HeaderName::try_from` and `HeaderName::as_str`: the name in its normal
/// form, if it is a header name.
#[verifier::external_body]
pub(crate) fn normal_header_name(name: &str) -> (r: Option<String>)
    ensures
        r is Some <==> header_name(name@) is Some,
        r matches Some(n) ==> header_name(name@) == Some(n@),
{
    match ::http::HeaderName::try_from(name) {
        Ok(n) => Some(n.as_str().to_owned()),
        Err(_) => None,
    }
}

/// `HeaderValue::try_from`: whether the text can be the value of a header
/// field, which is so where each of its bytes can stand in one.
#[verifier::external_body]
pub(crate) fn valid_header_value(value: &str) -> (r: bool)
    ensures
        r == is_header_value(value.spec_bytes()),
{
    ::http::HeaderValue::try_from(value).is_ok()
}

/// `Authorization::basic` of the `headers` crate, encoded as the value of
/// the field.
#[verifier::external_body]
pub(crate) fn basic(username: &str, password: &str) -> (r: String)
    ensures
        r@ == basic_authorization(username@, password@),
{
    let credentials = ::headers::Authorization::basic(username, password);
    let value = ::headers::authorization::Credentials::encode(&credentials.0);
    String::from_utf8_lossy(value.as_bytes()).into_owned()
}

/// `Authorization::bearer` of the `headers` crate, encoded as the value of
/// the field: the word `Bearer`, a blank and the token, where the token can
/// stand in the value of a header field.
#[verifier::external_body]
pub(crate) fn bearer(token: &str) -> (r: Option<String>)
    ensures
        r is Some <==> is_header_value(token.spec_bytes()),
        r matches Some(v) ==> v@ == "Bearer "@ + token@,
{
    match ::headers::Authorization::bearer(token) {
        Ok(credentials) => {
            let value = ::headers::authorization::Credentials::encode(&credentials.0);
            Some(String::from_utf8_lossy(value.as_bytes()).into_owned())
        },
        Err(_) => None,
    }
}

/// One field of a header: its name in normal form and its value.
#[derive(Debug)]
pub struct Field {
    pub name: String,
    pub value: String,
}

impl Clone for Field {
    fn clone(&self) -> (r: Field)
        ensures
            r.name@ == self.name@,
            r.value@ == self.value@,
    {
        Field { name: self.name.clone(), value: self.value.clone() }
    }
}

/// The name of the field that authorizes a request, in normal form.
pub const AUTHORIZATION: &'static str = "authorization";

/// Whether one of `fields` has the name `name`.
pub open spec fn has_field(fields: Seq<Field>, name: Seq<char>) -> bool {
    exists|i: int| 0 <= i < fields.len() && (#[trigger] fields[i]).name@ == name
}

/// Whether one of `fields` has the name `name`.
pub fn contains_field(fields: &Vec<Field>, name: &str) -> (r: bool)
    ensures
        r == has_field(fields@, name@),
{
    let mut i: usize = 0;
    while i < fields.len()
        invariant
            i <= fields.len(),
            forall|j: int| 0 <= j < i ==> (#[trigger] fields@[j]).name@ != name@,
        decreases fields.len() - i,
    {
        if crate::text::equal(fields[i].name.as_str(), name) {
            return true;
        }
        i += 1;
    }
    false
}

/// Whether a status reports success.
pub open spec fn status_is_success(status: u16) -> bool {
    200 <= status < 300
}

/// Whether a status reports a fault of the server.
pub open spec fn status_is_server_error(status: u16) -> bool {
    500 <= status < 600
}

/// Whether `status` reports success.
pub fn is_success(status: u16) -> (r: bool)
    ensures
        r == status_is_success(status),
{
    200 <= status && status < 300
}

/// Whether `status` reports a fault of the server.
pub fn is_server_error(status: u16) -> (r: bool)
    ensures
        r == status_is_server_error(status),
{
    500 <= status && status < 600
}

/// The number of characters in the serialization of an address.
pub fn url_len(u: &::url::Url) -> (n: usize)
    ensures
        n == url_text(*u).len(),
{
    let text = url_as_string(u);
    text.as_str().unicode_len()
}

/// The failure of an operation that was given too long a text.
pub fn too_long() -> (r: Failure)
    ensures
        r matches Failure::Other(t) && t@ == "too long"@,
{
    Failure::other("too long")
}

} // verus!
