//! The protocol client: what is asked of a key management entity, and what
//! its answers are turned into.

use vstd::prelude::*;
use vstd::string::*;
use crate::error::{Error, ErrorType};
use crate::exchange::{is_keys_outcome, is_status_outcome, read_keys, read_status, Exchange};
use crate::json::key_and_id::KeyAndId;
use crate::json::key_container::KeyContainer;
use crate::json::key_id::KeyId;
use crate::json::key_request::{key_request_text, KeyRequest};
use crate::json::keys_by_ids_request::{keys_by_ids_text, KeysByIdsRequest};
use crate::status::Status;
use crate::store::{base64_decoded, secret_decode_base64, secret_from, secret_prefix, SecretBytes};
use crate::text::{byte_len, string_into_bytes, text_bytes};
use crate::transport::{
    certificate_from_pem, certificate_read, client_build, client_identity, client_trust_anchor,
    get_request, identity_from_pkcs8_pem, identity_read, is_plain_url, is_short_url, post_request,
    request_body, request_built, request_rendered, request_url, url_as_text, url_clone, url_parse,
    url_parsed, url_pass, url_set_host, url_set_path, url_set_port, url_text, url_user,
    url_with_host, url_with_path, url_with_port, MAX_HOST_BYTES, MAX_PATH_BYTES, MAX_URL_BYTES,
};

verus! {

/// The key bytes that the entry `k` of a key container stands for, if its text
/// is valid Base64.
pub open spec fn key_bytes_of(k: KeyAndId) -> Option<Seq<u8>> {
    base64_decoded(text_bytes(k.key@))
}

/// The message for a key whose text is not valid Base64.
pub open spec fn decode_failure_message(key_id: Seq<char>) -> Seq<char> {
    "Error decoding base64 for uuid "@ + key_id
}

/// `e` refuses the container for its entry `i`, the first whose text does not
/// decode.
pub open spec fn is_decode_failure(entries: Seq<KeyAndId>, i: int, e: Error) -> bool {
    &&& 0 <= i < entries.len()
    &&& key_bytes_of(entries[i]) is None
    &&& forall|j: int| 0 <= j < i ==> key_bytes_of(#[trigger] entries[j]) is Some
    &&& e.kind == ErrorType::InvalidResponse
    &&& e.msg@ == decode_failure_message(entries[i].key_id@)
    &&& e.source is None
}

/// `keys` holds, entry for entry, the identifiers of `entries` and the bytes
/// that their texts decode to.
pub open spec fn is_decoded_container(
    entries: Seq<KeyAndId>,
    keys: Seq<(String, SecretBytes)>,
) -> bool {
    &&& keys.len() == entries.len()
    &&& forall|i: int|
        0 <= i < entries.len() ==> {
            &&& (#[trigger] keys[i]).0@ == entries[i].key_id@
            &&& key_bytes_of(entries[i]) == Some(keys[i].1@)
        }
}

/// A container that is accepted held no corrupted entry: every text in it
/// was valid Base64, and the key at its place holds what that text decodes
/// to.
pub proof fn lemma_accepted_container_is_sound(
    entries: Seq<KeyAndId>,
    keys: Seq<(String, SecretBytes)>,
    i: int,
)
    requires
        is_decoded_container(entries, keys),
        0 <= i < entries.len(),
    ensures
        key_bytes_of(entries[i]) == Some(keys[i].1@),
        keys[i].0@ == entries[i].key_id@,
{
}

/// Turns a key container into keys: each text is moved into guarded memory,
/// decoded there in place, and kept in a guarded allocation of its own size.
///
/// One entry that does not decode refuses the whole container.
pub fn key_container_to_vector(kc: KeyContainer) -> (r: Result<Vec<(String, SecretBytes)>, Error>)
    ensures
        match r {
            Ok(keys) => is_decoded_container(kc.keys@, keys@),
            Err(e) => exists|i: int| is_decode_failure(kc.keys@, i, e),
        },
{
    let ghost entries = kc.keys@;
    let mut keys: Vec<(String, SecretBytes)> = Vec::with_capacity(kc.keys.len());
    for entry in it: kc.keys
        invariant
            it.seq() == entries,
            keys@.len() == it.index(),
            forall|j: int|
                0 <= j < it.index() ==> {
                    &&& (#[trigger] keys@[j]).0@ == entries[j].key_id@
                    &&& key_bytes_of(entries[j]) == Some(keys@[j].1@)
                },
            forall|j: int| 0 <= j < it.index() ==> key_bytes_of(#[trigger] entries[j]) is Some,
    {
        assert(entry == entries[it.index() as int]);
        let ghost done = keys@;
        let KeyAndId { key_id, key } = entry;
        let mut text = string_into_bytes(key);
        let mut guarded = secret_from(&mut text);
        match secret_decode_base64(&mut guarded) {
            Some(len) => {
                let secret = secret_prefix(&guarded, len);
                keys.push((key_id, secret));
                assert(forall|j: int| 0 <= j < done.len() ==> keys@[j] == done[j]);
            },
            None => {
                let mut msg = String::from_str("Error decoding base64 for uuid ");
                msg.append(key_id.as_str());
                let e = Error::new(msg, ErrorType::InvalidResponse, None);
                assert(is_decode_failure(entries, it.index() as int, e));
                return Err(e);
            },
        }
    }
    Ok(keys)
}

/// `Ok` stays `Ok`; a cause becomes an error of the kind `InvalidArgument`
/// with the message `msg`.
pub fn invalid_argument<T>(outcome: Result<T, String>, msg: &str) -> (r: Result<T, Error>)
    ensures
        match outcome {
            Ok(value) => r matches Ok(v) && v == value,
            Err(cause) => r matches Err(e) && e.kind == ErrorType::InvalidArgument && e.msg@
                == msg@ && e.source == Some(cause),
        },
{
    match outcome {
        Ok(value) => Ok(value),
        Err(cause) => Err(Error::new(String::from_str(msg), ErrorType::InvalidArgument, Some(cause))),
    }
}

/// The URL that every base URL is made from, if it is there to be used.
pub open spec fn local_url() -> Option<reqwest::Url> {
    match url_parsed("https://localhost"@) {
        Some(u) => if is_short_url(u) {
            Some(u)
        } else {
            None
        },
        None => None,
    }
}

/// The local URL with `host` as its host; `None` where the host is too long
/// or refused.
pub open spec fn hosted_url(host: Seq<char>) -> Option<reqwest::Url> {
    match local_url() {
        Some(u) => if text_bytes(host).len() <= MAX_HOST_BYTES {
            match url_with_host(u, host) {
                Some(h) => if is_short_url(h) {
                    Some(h)
                } else {
                    None
                },
                None => None,
            }
        } else {
            None
        },
        None => None,
    }
}

/// `u` can be the URL of an entity: its text is short enough for a path to
/// be added, and it carries neither a user name nor a password.
pub open spec fn is_entity_url(u: reqwest::Url) -> bool {
    is_short_url(u) && is_plain_url(u)
}

/// The URL `https://host:port`; `None` where `host` and `port` do not make
/// one.
pub open spec fn base_url_for(host: Seq<char>, port: u16) -> Option<reqwest::Url> {
    match hosted_url(host) {
        Some(h) => match url_with_port(h, port) {
            Some(u) => if is_entity_url(u) {
                Some(u)
            } else {
                None
            },
            None => None,
        },
        None => None,
    }
}

/// `e` says why `host` and `port` make no base URL: it names the first step
/// that failed.
pub open spec fn is_base_url_failure(host: Seq<char>, e: Error) -> bool {
    &&& e.kind == ErrorType::InvalidHost
    &&& if local_url() is None {
        &&& e.msg@ == "Error parsing hardcoded URL"@
        &&& e.source is Some <==> url_parsed("https://localhost"@) is None
    } else if hosted_url(host) is None {
        e.msg@ == "Invalid host: "@ + host && e.source is Some
    } else {
        e.msg@ == "Error setting port for host: '"@ + host && e.source is None
    }
}

/// The path of the endpoint `endpoint` on behalf of `target_sae_id`.
pub open spec fn request_path(target_sae_id: Seq<char>, endpoint: Seq<char>) -> Seq<char> {
    "api/v1/keys/"@ + target_sae_id + "/"@ + endpoint
}

/// `path` is short enough to be put into a URL.
pub open spec fn is_short_path(path: Seq<char>) -> bool {
    text_bytes(path).len() <= MAX_PATH_BYTES
}

/// The text of an optional text.
pub open spec fn text_view(text: Option<&str>) -> Option<Seq<char>> {
    match text {
        Some(t) => Some(t@),
        None => None,
    }
}

/// The texts of `texts`, one for one.
pub open spec fn text_views(texts: Seq<&str>) -> Seq<Seq<char>> {
    Seq::new(texts.len(), |i: int| texts[i]@)
}

/// The message for a request to `url` that could not be made.
pub open spec fn build_failure_message(url: Seq<char>, body: Option<Seq<char>>) -> Seq<char> {
    match body {
        Some(b) => "Error building request for url: "@ + url + "\n\nRequest body: "@ + b,
        None => "Error building request for url: "@ + url,
    }
}

/// Writes `request_path(target_sae_id, endpoint)`.
pub fn path_text(target_sae_id: &str, endpoint: &str) -> (r: String)
    ensures
        r@ == request_path(target_sae_id@, endpoint@),
{
    let mut r = String::from_str("api/v1/keys/");
    r.append(target_sae_id);
    r.append("/");
    r.append(endpoint);
    r
}

/// Writes `build_failure_message(url, body)`.
pub fn build_failure_text(url: &str, body: Option<&str>) -> (r: String)
    ensures
        r@ == build_failure_message(url@, text_view(body)),
{
    let mut r = String::from_str("Error building request for url: ");
    r.append(url);
    match body {
        Some(b) => {
            r.append("\n\nRequest body: ");
            r.append(b);
        },
        None => {},
    }
    r
}

/// A request that is ready to be sent, with the body that it posts.
#[derive(Debug)]
pub struct Call {
    pub request: reqwest::Request,
    pub post_body: Option<String>,
}

impl Call {
    /// The posted body as text.
    pub open spec fn body(&self) -> Option<Seq<char>> {
        match self.post_body {
            Some(b) => Some(b@),
            None => None,
        }
    }

    /// The posted body, for a message.
    pub fn body_text(&self) -> (r: Option<&str>)
        ensures
            text_view(r) == self.body(),
    {
        match &self.post_body {
            Some(b) => Some(b.as_str()),
            None => None,
        }
    }
}

/// Whether the text of `url` is short enough to be changed further.
fn is_short(url: &reqwest::Url) -> (r: bool)
    ensures
        r == is_short_url(*url),
{
    byte_len(url_as_text(url)) <= MAX_URL_BYTES
}

/// Whether `url` carries neither a user name nor a password.
fn is_plain(url: &reqwest::Url) -> (r: bool)
    ensures
        r == is_plain_url(*url),
{
    url_user(url).is_empty() && url_pass(url).is_none()
}

/// A file as it was read: its path as messages are to show it, and its
/// bytes, or the reason why it could not be read.
#[derive(Debug)]
pub struct FileRead {
    pub path: String,
    pub content: Result<Vec<u8>, String>,
}

/// `e` reports that `file` could not be read.
pub open spec fn is_read_failure(file: FileRead, e: Error) -> bool {
    &&& file.content matches Err(cause)
    &&& e.kind == ErrorType::InvalidArgument
    &&& e.msg@ == "Error reading "@ + file.path@
    &&& e.source == Some(cause)
}

/// `e` reports, with the message `msg` and a cause, that material was refused.
pub open spec fn is_refusal(msg: Seq<char>, e: Error) -> bool {
    &&& e.kind == ErrorType::InvalidArgument
    &&& e.msg@ == msg
    &&& e.source is Some
}

/// The message for a root certificate at `path` that is refused.
pub open spec fn root_message(path: Seq<char>) -> Seq<char> {
    "Error parsing "@ + path
}

/// The message for a certificate at `cert` and a private key at `key` that
/// are refused.
pub open spec fn identity_message(cert: Seq<char>, key: Seq<char>) -> Seq<char> {
    "Error parsing "@ + cert + " or "@ + key
}

/// `e` says why no client was made: the first thing that went wrong, in the
/// order host and port, root certificate, certificate and private key, HTTP
/// client. Whether material is accepted is for the TLS library to say, so
/// of the later steps each may be the one that failed.
pub open spec fn is_new_failure(
    host: Seq<char>,
    port: u16,
    cert: FileRead,
    key: FileRead,
    server_ca: FileRead,
    e: Error,
) -> bool {
    if base_url_for(host, port) is None {
        is_base_url_failure(host, e)
    } else if server_ca.content is Err {
        is_read_failure(server_ca, e)
    } else {
        ||| is_refusal(root_message(server_ca.path@), e)
        ||| cert.content is Err && is_read_failure(cert, e)
        ||| cert.content is Ok && key.content is Err && is_read_failure(key, e)
        ||| cert.content is Ok && key.content is Ok && is_refusal(
            identity_message(cert.path@, key.path@),
            e,
        )
        ||| cert.content is Ok && key.content is Ok && is_refusal("Error creating http client"@, e)
    }
}

/// The bytes of a file that was read, or the error that says that it could
/// not be read.
pub fn read_bytes(file: &FileRead) -> (r: Result<&[u8], Error>)
    ensures
        match r {
            Ok(bytes) => file.content matches Ok(content) && bytes@ == content@,
            Err(e) => is_read_failure(*file, e),
        },
{
    match &file.content {
        Ok(content) => Ok(content.as_slice()),
        Err(cause) => {
            let mut msg = String::from_str("Error reading ");
            msg.append(file.path.as_str());
            Err(Error::new(msg, ErrorType::InvalidArgument, Some(cause.clone())))
        },
    }
}

/// A client of one key management entity: the URL of the entity and the
/// HTTP client that trusts only the given root and shows the given identity.
#[derive(Debug)]
pub struct ETSI014Client {
    http_client: reqwest::Client,
    base_url: reqwest::Url,
}

impl ETSI014Client {
    #[verifier::type_invariant]
    spec fn url_is_fit(self) -> bool {
        is_entity_url(self.base_url)
    }

    /// The URL of the entity.
    pub closed spec fn base(&self) -> reqwest::Url {
        self.base_url
    }

    /// The HTTP client that requests are made with.
    pub closed spec fn client(&self) -> reqwest::Client {
        self.http_client
    }

    /// The one root certificate that servers are trusted by was read from
    /// the PEM text `server_ca`.
    pub open spec fn is_trusting(&self, server_ca: Seq<u8>) -> bool {
        certificate_read(server_ca, client_trust_anchor(self.client()))
    }

    /// The identity shown to servers was read from the PEM texts `cert` and
    /// `key`.
    pub open spec fn is_showing(&self, cert: Seq<u8>, key: Seq<u8>) -> bool {
        identity_read(cert, key, client_identity(self.client()))
    }

    /// The client is the channel that `new` makes from these inputs: it
    /// addresses `https://host:port`, trusts only what `server_ca` holds and
    /// shows what `cert` and `key` hold.
    pub open spec fn is_channel_for(
        &self,
        host: Seq<char>,
        port: u16,
        cert: Seq<u8>,
        key: Seq<u8>,
        server_ca: Seq<u8>,
    ) -> bool {
        &&& base_url_for(host, port) == Some(self.base())
        &&& self.is_trusting(server_ca)
        &&& self.is_showing(cert, key)
    }

    /// Two clients made from the same inputs are the same channel: they
    /// address the same URL, and each trusts only what the same root text
    /// holds and shows what the same certificate and key texts hold.
    pub proof fn lemma_same_inputs_same_channel(
        a: ETSI014Client,
        b: ETSI014Client,
        host: Seq<char>,
        port: u16,
        cert: Seq<u8>,
        key: Seq<u8>,
        server_ca: Seq<u8>,
    )
        requires
            a.is_channel_for(host, port, cert, key, server_ca),
            b.is_channel_for(host, port, cert, key, server_ca),
        ensures
            a.base() == b.base(),
            a.is_trusting(server_ca) && b.is_trusting(server_ca),
            a.is_showing(cert, key) && b.is_showing(cert, key),
    {
    }

    /// Makes the URL `https://host:port`.
    pub fn base_url(host: &str, port: u16) -> (r: Result<reqwest::Url, Error>)
        ensures
            match r {
                Ok(u) => base_url_for(host@, port) == Some(u),
                Err(e) => base_url_for(host@, port) is None && is_base_url_failure(host@, e),
            },
    {
        let mut url = match url_parse("https://localhost") {
            Ok(u) => u,
            Err(cause) => {
                return Err(
                    Error::new(
                        String::from_str("Error parsing hardcoded URL"),
                        ErrorType::InvalidHost,
                        Some(cause),
                    ),
                );
            },
        };
        if !is_short(&url) {
            return Err(
                Error::new(
                    String::from_str("Error parsing hardcoded URL"),
                    ErrorType::InvalidHost,
                    None,
                ),
            );
        }
        let mut invalid_host = String::from_str("Invalid host: ");
        invalid_host.append(host);
        if byte_len(host) > MAX_HOST_BYTES {
            return Err(
                Error::new(
                    invalid_host,
                    ErrorType::InvalidHost,
                    Some(String::from_str("the host is too long")),
                ),
            );
        }
        match url_set_host(&mut url, host) {
            Ok(()) => {},
            Err(cause) => {
                return Err(Error::new(invalid_host, ErrorType::InvalidHost, Some(cause)));
            },
        }
        if !is_short(&url) {
            return Err(
                Error::new(
                    invalid_host,
                    ErrorType::InvalidHost,
                    Some(String::from_str("the URL is too long")),
                ),
            );
        }
        if !url_set_port(&mut url, port) || !is_short(&url) || !is_plain(&url) {
            let mut msg = String::from_str("Error setting port for host: '");
            msg.append(host);
            return Err(Error::new(msg, ErrorType::InvalidHost, None));
        }
        Ok(url)
    }

    /// Puts a client together from its URL and from what building the HTTP
    /// client gave. A URL that is too long, or that carries a user name or a
    /// password, is refused.
    pub fn assemble(base_url: reqwest::Url, built: Result<reqwest::Client, String>) -> (r: Result<
        ETSI014Client,
        Error,
    >)
        ensures
            if !is_short_url(base_url) {
                &&& r matches Err(e)
                &&& e.kind == ErrorType::InvalidHost
                &&& e.msg@ == "The URL is too long"@
                &&& e.source is None
            } else if !is_plain_url(base_url) {
                &&& r matches Err(e)
                &&& e.kind == ErrorType::InvalidHost
                &&& e.msg@ == "The URL holds a user name or a password"@
                &&& e.source is None
            } else {
                match built {
                    Ok(http_client) => r matches Ok(c) && c.base() == base_url && c.client()
                        == http_client,
                    Err(cause) => r matches Err(e) && e.kind == ErrorType::InvalidArgument && e.msg@
                        == "Error creating http client"@ && e.source == Some(cause),
                }
            },
    {
        if !is_short(&base_url) {
            return Err(
                Error::new(String::from_str("The URL is too long"), ErrorType::InvalidHost, None),
            );
        }
        if !is_plain(&base_url) {
            return Err(
                Error::new(
                    String::from_str("The URL holds a user name or a password"),
                    ErrorType::InvalidHost,
                    None,
                ),
            );
        }
        let http_client = invalid_argument(built, "Error creating http client")?;
        Ok(ETSI014Client { http_client, base_url })
    }

    /// Makes a client for the entity at `host` and `port` that trusts only
    /// the root certificate in `server_ca` and shows the certificate in
    /// `cert` with the private key in `key`, all three PEM files.
    ///
    /// The steps are taken in turn and the first that fails is reported:
    /// host and port, the root certificate, the certificate and the key,
    /// the HTTP client. A file that could not be read, or whose content is
    /// refused, is named by its path. Whether content is accepted, and
    /// whether the HTTP client can be built, is for the TLS library of the
    /// machine to say.
    pub fn new(host: &str, port: u16, cert: &FileRead, key: &FileRead, server_ca: &FileRead) -> (r:
        Result<ETSI014Client, Error>)
        ensures
            match r {
                Ok(c) => {
                    &&& cert.content matches Ok(cert_text)
                    &&& key.content matches Ok(key_text)
                    &&& server_ca.content matches Ok(root_text)
                    &&& c.is_channel_for(host@, port, cert_text@, key_text@, root_text@)
                },
                Err(e) => is_new_failure(host@, port, *cert, *key, *server_ca, e),
            },
    {
        let base_url = Self::base_url(host, port)?;
        let root_text = read_bytes(server_ca)?;
        let mut root_refused = String::from_str("Error parsing ");
        root_refused.append(server_ca.path.as_str());
        let trust_anchor = invalid_argument(
            certificate_from_pem(root_text),
            root_refused.as_str(),
        )?;
        let cert_text = read_bytes(cert)?;
        let key_text = read_bytes(key)?;
        let mut identity_refused = String::from_str("Error parsing ");
        identity_refused.append(cert.path.as_str());
        identity_refused.append(" or ");
        identity_refused.append(key.path.as_str());
        let identity = invalid_argument(
            identity_from_pkcs8_pem(cert_text, key_text),
            identity_refused.as_str(),
        )?;
        Self::assemble(base_url, client_build(trust_anchor, identity))
    }

    /// The request for the endpoint `endpoint` on behalf of `target_sae_id`:
    /// one that fetches where there is no body, one that posts the body as
    /// JSON where there is.
    ///
    /// Whether `reqwest` can make the request is for it to say; where it
    /// cannot, or where the path is too long to be put into a URL, the error
    /// names the URL and the body.
    pub fn build_request(&self, target_sae_id: &str, endpoint: &str, post_body: Option<String>) -> (r:
        Result<Call, Error>)
        ensures
            self.is_request_outcome(
                target_sae_id@,
                endpoint@,
                match post_body {
                    Some(b) => Some(b@),
                    None => None,
                },
                r,
            ),
    {
        proof {
            use_type_invariant(self);
        }
        let body = match &post_body {
            Some(b) => Some(b.as_str()),
            None => None,
        };
        let path = path_text(target_sae_id, endpoint);
        let mut url = url_clone(&self.base_url);
        if byte_len(path.as_str()) > MAX_PATH_BYTES {
            return Err(
                Error::new(
                    build_failure_text(url_as_text(&url), body),
                    ErrorType::InvalidArgument,
                    Some(String::from_str("the path is too long")),
                ),
            );
        }
        url_set_path(&mut url, path.as_str());
        let msg = build_failure_text(url_as_text(&url), body);
        let built = match body {
            None => get_request(&self.http_client, url),
            Some(text) => post_request(&self.http_client, url, text),
        };
        match built {
            Ok(request) => Ok(Call { request, post_body }),
            Err(cause) => Err(Error::new(msg, ErrorType::InvalidArgument, Some(cause))),
        }
    }

    /// The request for the endpoint `endpoint` on behalf of `target_sae_id`
    /// with `body`; `None` where the path is too long to be put into a URL or
    /// where no request can be built.
    pub open spec fn request_for(
        &self,
        target_sae_id: Seq<char>,
        endpoint: Seq<char>,
        body: Option<Seq<char>>,
    ) -> Option<reqwest::Request> {
        if is_short_path(request_path(target_sae_id, endpoint)) {
            request_built(self.client(), self.url_of(target_sae_id, endpoint), body)
        } else {
            None
        }
    }

    /// `r` is what asking for a request gives: the request for that URL with
    /// that body wherever there is one, and otherwise the error that names
    /// the URL and the body.
    pub open spec fn is_request_outcome(
        &self,
        target_sae_id: Seq<char>,
        endpoint: Seq<char>,
        body: Option<Seq<char>>,
        r: Result<Call, Error>,
    ) -> bool {
        match self.request_for(target_sae_id, endpoint, body) {
            Some(request) => {
                &&& r matches Ok(call)
                &&& call.request == request
                &&& call.body() == body
                &&& request_url(call.request) == self.url_of(target_sae_id, endpoint)
                &&& request_body(call.request) == body
            },
            None => {
                &&& r matches Err(e)
                &&& e.kind == ErrorType::InvalidArgument
                &&& e.source is Some
                &&& e.msg@ == if is_short_path(request_path(target_sae_id, endpoint)) {
                    build_failure_message(url_text(self.url_of(target_sae_id, endpoint)), body)
                } else {
                    build_failure_message(url_text(self.base()), body)
                }
            },
        }
    }

    /// The URL of the endpoint `endpoint` on behalf of `target_sae_id`.
    pub open spec fn url_of(&self, target_sae_id: Seq<char>, endpoint: Seq<char>) -> reqwest::Url {
        url_with_path(self.base(), request_path(target_sae_id, endpoint))
    }

    /// The request for the status of the link to `target_sae_id`.
    pub fn status_request(&self, target_sae_id: &str) -> (r: Result<Call, Error>)
        ensures
            self.is_request_outcome(target_sae_id@, "status"@, None, r),
    {
        self.build_request(target_sae_id, "status", None)
    }

    /// The request for `amount_of_keys` new keys of `key_size_bits` bits each,
    /// shared with `target_sae_id` and with the applications in
    /// `additional_target_sae_ids`.
    pub fn keys_request(
        &self,
        key_size_bits: u32,
        target_sae_id: &str,
        additional_target_sae_ids: &[&str],
        amount_of_keys: u32,
    ) -> (r: Result<Call, Error>)
        ensures
            self.is_request_outcome(
                target_sae_id@,
                "enc_keys"@,
                Some(
                    key_request_text(
                        amount_of_keys,
                        Some(key_size_bits),
                        additional_target_sae_ids@,
                        None,
                    ),
                ),
                r,
            ),
    {
        let post_body = KeyRequest {
            number: amount_of_keys,
            size: Some(key_size_bits),
            additional_target_sae_ids,
            extension_mandatory: None,
        }.to_json();
        self.build_request(target_sae_id, "enc_keys", Some(post_body))
    }

    /// The request for the keys that `key_ids` name, which `target_sae_id`
    /// asked for before.
    pub fn keys_by_ids_request(&self, target_sae_id: &str, key_ids: &[&str]) -> (r: Result<
        Call,
        Error,
    >)
        ensures
            self.is_request_outcome(
                target_sae_id@,
                "dec_keys"@,
                Some(keys_by_ids_text(text_views(key_ids@))),
                r,
            ),
    {
        let mut ids: Vec<KeyId> = Vec::with_capacity(key_ids.len());
        let mut i: usize = 0;
        while i < key_ids.len()
            invariant
                i <= key_ids.len(),
                ids@.len() == i,
                forall|j: int| 0 <= j < i ==> (#[trigger] ids@[j]).key_id@ == key_ids@[j]@,
            decreases key_ids.len() - i,
        {
            ids.push(KeyId { key_id: key_ids[i] });
            i += 1;
        }
        let request = KeysByIdsRequest { key_ids: ids };
        assert(request.ids() =~= text_views(key_ids@));
        let post_body = request.to_json();
        self.build_request(target_sae_id, "dec_keys", Some(post_body))
    }

    /// Asks for the status of the link to `target_sae_id`. The request is
    /// handed to `send` once, and what `send` reports is read as a status.
    pub fn get_status<F: FnOnce(&Call) -> Exchange>(&self, target_sae_id: &str, send: F) -> (r:
        Result<Status, Error>)
        requires
            forall|call: &Call| send.requires((call,)),
        ensures
            self.is_status_operation(target_sae_id@, send, r),
    {
        let call = match self.status_request(target_sae_id) {
            Ok(call) => call,
            Err(e) => {
                return Err(e);
            },
        };
        let outcome = send(&call);
        read_status(&outcome, &call)
    }

    /// Asks for `amount_of_keys` new keys of `key_size_bits` bits each, shared
    /// with `target_sae_id` and with the applications in
    /// `additional_target_sae_ids`. The request is handed to `send` once, and
    /// what `send` reports is read as exactly that many keys.
    pub fn get_keys<F: FnOnce(&Call) -> Exchange>(
        &self,
        key_size_bits: u32,
        target_sae_id: &str,
        additional_target_sae_ids: &[&str],
        amount_of_keys: u32,
        send: F,
    ) -> (r: Result<Vec<(String, SecretBytes)>, Error>)
        requires
            forall|call: &Call| send.requires((call,)),
        ensures
            self.is_keys_operation(
                target_sae_id@,
                "enc_keys"@,
                key_request_text(
                    amount_of_keys,
                    Some(key_size_bits),
                    additional_target_sae_ids@,
                    None,
                ),
                amount_of_keys as nat,
                send,
                r,
            ),
    {
        let call = match self.keys_request(
            key_size_bits,
            target_sae_id,
            additional_target_sae_ids,
            amount_of_keys,
        ) {
            Ok(call) => call,
            Err(e) => {
                return Err(e);
            },
        };
        let outcome = send(&call);
        read_keys(&outcome, &call, amount_of_keys as usize)
    }

    /// Asks for the keys that `key_ids` name. The request is handed to `send`
    /// once, and what `send` reports is read as one key for each identifier.
    pub fn get_keys_by_ids<F: FnOnce(&Call) -> Exchange>(
        &self,
        target_sae_id: &str,
        key_ids: &[&str],
        send: F,
    ) -> (r: Result<Vec<(String, SecretBytes)>, Error>)
        requires
            forall|call: &Call| send.requires((call,)),
        ensures
            self.is_keys_operation(
                target_sae_id@,
                "dec_keys"@,
                keys_by_ids_text(text_views(key_ids@)),
                key_ids@.len(),
                send,
                r,
            ),
    {
        let call = match self.keys_by_ids_request(target_sae_id, key_ids) {
            Ok(call) => call,
            Err(e) => {
                return Err(e);
            },
        };
        let outcome = send(&call);
        read_keys(&outcome, &call, key_ids.len())
    }

    /// `r` is what asking for a status comes to. Where the request can be
    /// made, `send` was given it once and `r` is what its report reads as;
    /// where it cannot, nothing was sent and `r` is the error that says so.
    pub open spec fn is_status_operation<F: FnOnce(&Call) -> Exchange>(
        &self,
        target_sae_id: Seq<char>,
        send: F,
        r: Result<Status, Error>,
    ) -> bool {
        match self.request_for(target_sae_id, "status"@, None) {
            Some(request) => exists|call: Call, outcome: Exchange|
                {
                    &&& call.request == request
                    &&& call.body() is None
                    &&& send.ensures((&call,), outcome)
                    &&& is_status_outcome(outcome, request_rendered(request), None, r)
                },
            None => r matches Err(e) && self.is_request_outcome(
                target_sae_id,
                "status"@,
                None,
                Err(e),
            ),
        }
    }

    /// `r` is what asking the endpoint `endpoint` for `expected` keys comes
    /// to. Where the request can be made, `send` was given it once and `r`
    /// is what its report reads as; where it cannot, nothing was sent and
    /// `r` is the error that says so.
    pub open spec fn is_keys_operation<F: FnOnce(&Call) -> Exchange>(
        &self,
        target_sae_id: Seq<char>,
        endpoint: Seq<char>,
        body: Seq<char>,
        expected: nat,
        send: F,
        r: Result<Vec<(String, SecretBytes)>, Error>,
    ) -> bool {
        match self.request_for(target_sae_id, endpoint, Some(body)) {
            Some(request) => exists|call: Call, outcome: Exchange|
                {
                    &&& call.request == request
                    &&& call.body() == Some(body)
                    &&& send.ensures((&call,), outcome)
                    &&& is_keys_outcome(
                        outcome,
                        request_rendered(request),
                        Some(body),
                        expected,
                        r,
                    )
                },
            None => r matches Err(e) && self.is_request_outcome(
                target_sae_id,
                endpoint,
                Some(body),
                Err(e),
            ),
        }
    }

    /// The HTTP client, for whoever sends the requests.
    pub fn http_client(&self) -> (r: &reqwest::Client)
        ensures
            *r == self.client(),
    {
        &self.http_client
    }
}

} // verus!
