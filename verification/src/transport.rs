//! The channel to a key management entity, made with `reqwest`: the URL of the
//! entity, the certificate it is trusted by, the identity shown to it, the
//! client that holds both, and the requests sent through it.
//!
//! None of these values can be looked into from here. Each function below
//! makes one call into `reqwest` and says what that call is documented to do;
//! the rest of the library is proved against these statements.

use vstd::prelude::*;
use crate::text::text_bytes;

verus! {

/// The longest URL, in bytes, that is given a new host, port or path. `Url`
/// counts the places inside a URL with 32 bits and panics where that is not
/// enough; below this length, and with hosts and paths no longer than the
/// two limits that follow, it cannot come to that.
pub const MAX_URL_BYTES: usize = 0x1000_0000;

/// The longest host, in bytes, that is given to a URL.
pub const MAX_HOST_BYTES: usize = 0x10_0000;

/// The longest path, in bytes, that is given to a URL.
pub const MAX_PATH_BYTES: usize = 0x1000_0000;

/// The text of `u` is at most `MAX_URL_BYTES` long.
pub open spec fn is_short_url(u: reqwest::Url) -> bool {
    text_bytes(url_text(u)).len() <= MAX_URL_BYTES
}

#[verifier::external_type_specification]
#[verifier::external_body]
pub struct ExUrl(reqwest::Url);

#[verifier::external_type_specification]
#[verifier::external_body]
pub struct ExCertificate(reqwest::Certificate);

#[verifier::external_type_specification]
#[verifier::external_body]
pub struct ExIdentity(reqwest::Identity);

#[verifier::external_type_specification]
#[verifier::external_body]
pub struct ExClient(reqwest::Client);

#[verifier::external_type_specification]
#[verifier::external_body]
pub struct ExRequest(reqwest::Request);

#[verifier::external_type_specification]
#[verifier::external_body]
pub struct ExStatusCode(reqwest::StatusCode);

/// The URL that a text parses to; `None` where the text is no URL.
pub uninterp spec fn url_parsed(text: Seq<char>) -> Option<reqwest::Url>;

/// The URL `u` with `host` in place of its host; `None` where `u` cannot take
/// that host.
pub uninterp spec fn url_with_host(u: reqwest::Url, host: Seq<char>) -> Option<reqwest::Url>;

/// The URL `u` with `port` in place of its port; `None` where `u` cannot have
/// a port.
pub uninterp spec fn url_with_port(u: reqwest::Url, port: u16) -> Option<reqwest::Url>;

/// The URL `u` with `path` in place of its path.
pub uninterp spec fn url_with_path(u: reqwest::Url, path: Seq<char>) -> reqwest::Url;

/// The text that writes a URL.
pub uninterp spec fn url_text(u: reqwest::Url) -> Seq<char>;

/// The user name that a URL carries; empty where it carries none.
pub uninterp spec fn url_username(u: reqwest::Url) -> Seq<char>;

/// The password that a URL carries, if it carries one.
pub uninterp spec fn url_password(u: reqwest::Url) -> Option<Seq<char>>;

/// `u` carries neither a user name nor a password.
pub open spec fn is_plain_url(u: reqwest::Url) -> bool {
    url_username(u).len() == 0 && url_password(u) is None
}

/// `c` is a certificate that reading the PEM text `pem` gave.
pub uninterp spec fn certificate_read(pem: Seq<u8>, c: reqwest::Certificate) -> bool;

/// `i` is an identity that reading the PEM texts `cert` and `key` gave.
pub uninterp spec fn identity_read(cert: Seq<u8>, key: Seq<u8>, i: reqwest::Identity) -> bool;

/// The request that `client` builds for `url`: one that fetches where `body`
/// is `None`, one that posts `body` as JSON where it is there; `None` where
/// no request can be built.
pub uninterp spec fn request_built(
    client: reqwest::Client,
    url: reqwest::Url,
    body: Option<Seq<char>>,
) -> Option<reqwest::Request>;

/// The number of an HTTP status.
pub uninterp spec fn status_number(status: reqwest::StatusCode) -> u16;

/// How an HTTP status prints itself: its number and what the number stands
/// for.
pub uninterp spec fn status_rendered(status: reqwest::StatusCode) -> Seq<char>;

/// The one certificate that a client accepts as the root of a server's chain.
pub uninterp spec fn client_trust_anchor(c: reqwest::Client) -> reqwest::Certificate;

/// The identity that a client shows to a server.
pub uninterp spec fn client_identity(c: reqwest::Client) -> reqwest::Identity;

/// The URL that a request goes to.
pub uninterp spec fn request_url(r: reqwest::Request) -> reqwest::Url;

/// The body that a request carries as JSON; `None` for a request that only
/// fetches.
pub uninterp spec fn request_body(r: reqwest::Request) -> Option<Seq<char>>;

/// How a request prints itself for diagnostics.
pub uninterp spec fn request_rendered(r: reqwest::Request) -> Seq<char>;

/// `Url::parse`. Where the text is refused, the error is handed back as it
/// prints itself.
#[verifier::external_body]
pub(crate) fn url_parse(text: &str) -> (r: Result<reqwest::Url, String>)
    ensures
        match url_parsed(text@) {
            Some(u) => r == Ok::<reqwest::Url, String>(u),
            None => r is Err,
        },
{
    reqwest::Url::parse(text).map_err(|e| format!("{e:#?}"))
}

/// `Url::set_host` with a host. A host that is refused leaves the URL as it
/// was; the error is handed back as it prints itself.
#[verifier::external_body]
pub(crate) fn url_set_host(url: &mut reqwest::Url, host: &str) -> (r: Result<(), String>)
    requires
        is_short_url(*old(url)),
        text_bytes(host@).len() <= MAX_HOST_BYTES,
    ensures
        match url_with_host(*old(url), host@) {
            Some(u) => r is Ok && *final(url) == u,
            None => r is Err && *final(url) == *old(url),
        },
{
    url.set_host(Some(host)).map_err(|e| format!("{e:#?}"))
}

/// `Url::set_port` with a port. It returns whether the URL took the port; one
/// that cannot have a port stays as it was.
#[verifier::external_body]
pub(crate) fn url_set_port(url: &mut reqwest::Url, port: u16) -> (r: bool)
    requires
        is_short_url(*old(url)),
    ensures
        match url_with_port(*old(url), port) {
            Some(u) => r && *final(url) == u,
            None => !r && *final(url) == *old(url),
        },
{
    url.set_port(Some(port)).is_ok()
}

/// `Url::set_path`. Only the path changes: a user name and a password stay
/// as they were.
#[verifier::external_body]
pub(crate) fn url_set_path(url: &mut reqwest::Url, path: &str)
    requires
        is_short_url(*old(url)),
        text_bytes(path@).len() <= MAX_PATH_BYTES,
    ensures
        *final(url) == url_with_path(*old(url), path@),
        url_username(*final(url)) == url_username(*old(url)),
        url_password(*final(url)) == url_password(*old(url)),
{
    url.set_path(path)
}

/// `Url::clone`.
#[verifier::external_body]
pub(crate) fn url_clone(url: &reqwest::Url) -> (r: reqwest::Url)
    ensures
        r == *url,
{
    url.clone()
}

/// `Url::username`: the user name in the URL, empty where there is none.
#[verifier::external_body]
pub(crate) fn url_user(url: &reqwest::Url) -> (r: &str)
    ensures
        r@ == url_username(*url),
{
    url.username()
}

/// `Url::password`: the password in the URL, if there is one.
#[verifier::external_body]
pub(crate) fn url_pass(url: &reqwest::Url) -> (r: Option<&str>)
    ensures
        match url_password(*url) {
            Some(text) => r matches Some(p) && p@ == text,
            None => r is None,
        },
{
    url.password()
}

/// `Url::as_str`: the URL as text.
#[verifier::external_body]
pub(crate) fn url_as_text(url: &reqwest::Url) -> (r: &str)
    ensures
        r@ == url_text(*url),
{
    url.as_str()
}

/// `Certificate::from_pem`. Whether a text is accepted is for the TLS library
/// of the machine to say; a certificate that comes back was read from `pem`.
#[verifier::external_body]
pub(crate) fn certificate_from_pem(pem: &[u8]) -> (r: Result<reqwest::Certificate, String>)
    ensures
        r matches Ok(c) ==> certificate_read(pem@, c),
{
    reqwest::Certificate::from_pem(pem).map_err(|e| format!("{e:#?}"))
}

/// `Identity::from_pkcs8_pem`. Whether the pair is accepted is for the TLS
/// library of the machine to say; an identity that comes back was read from
/// `cert` and `key`.
#[verifier::external_body]
pub(crate) fn identity_from_pkcs8_pem(cert: &[u8], key: &[u8]) -> (r: Result<
    reqwest::Identity,
    String,
>)
    ensures
        r matches Ok(i) ==> identity_read(cert@, key@, i),
{
    reqwest::Identity::from_pkcs8_pem(cert, key).map_err(|e| format!("{e:#?}"))
}

/// `ClientBuilder::build`, on a builder that uses the native TLS backend,
/// takes no root certificate from the system, adds `trust_anchor` as the only
/// root and shows `identity`. A client that comes back is set up so.
#[verifier::external_body]
pub(crate) fn client_build(trust_anchor: reqwest::Certificate, identity: reqwest::Identity) -> (r:
    Result<reqwest::Client, String>)
    ensures
        r matches Ok(c) ==> client_trust_anchor(c) == trust_anchor && client_identity(c)
            == identity,
{
    reqwest::Client::builder()
        .use_native_tls()
        .tls_built_in_root_certs(false)
        .add_root_certificate(trust_anchor)
        .identity(identity)
        .build()
        .map_err(|e| format!("{e:#?}"))
}

/// `RequestBuilder::build` on `Client::get`: the request that fetches `url`.
/// The URL goes into the request as it is, because it carries no user name
/// and no password for `reqwest` to take out.
#[verifier::external_body]
pub(crate) fn get_request(client: &reqwest::Client, url: reqwest::Url) -> (r: Result<
    reqwest::Request,
    String,
>)
    requires
        is_plain_url(url),
    ensures
        match request_built(*client, url, None) {
            Some(request) => r == Ok::<reqwest::Request, String>(request),
            None => r is Err,
        },
        r matches Ok(request) ==> request_url(request) == url && request_body(request) is None,
{
    client.get(url).build().map_err(|e| format!("{e:#?}"))
}

/// `RequestBuilder::build` on `Client::post`, with the content type
/// `application/json` and `body` as the body: the request that posts `body`
/// to `url`. The URL goes into the request as it is, because it carries no
/// user name and no password for `reqwest` to take out.
#[verifier::external_body]
pub(crate) fn post_request(client: &reqwest::Client, url: reqwest::Url, body: &str) -> (r: Result<
    reqwest::Request,
    String,
>)
    requires
        is_plain_url(url),
    ensures
        match request_built(*client, url, Some(body@)) {
            Some(request) => r == Ok::<reqwest::Request, String>(request),
            None => r is Err,
        },
        r matches Ok(request) ==> request_url(request) == url && request_body(request) == Some(
            body@,
        ),
{
    client
        .post(url)
        .header(reqwest::header::CONTENT_TYPE, "application/json")
        .body(body.to_owned())
        .build()
        .map_err(|e| format!("{e:#?}"))
}

/// The `Debug` form of a request, for diagnostics.
#[verifier::external_body]
pub(crate) fn request_text(request: &reqwest::Request) -> (r: String)
    ensures
        r@ == request_rendered(*request),
{
    format!("{request:#?}")
}

/// `StatusCode::as_u16`: the number of the status.
#[verifier::external_body]
pub(crate) fn status_as_number(status: &reqwest::StatusCode) -> (r: u16)
    ensures
        r == status_number(*status),
{
    status.as_u16()
}

/// The `Display` form of a status: its number and what the number stands
/// for.
#[verifier::external_body]
pub(crate) fn status_text(status: &reqwest::StatusCode) -> (r: String)
    ensures
        r@ == status_rendered(*status),
{
    format!("{status}")
}

} // verus!
