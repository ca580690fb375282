use etsi014_client::c::{
    client_handle, keys_answer, keys_by_ids_call, keys_call, status_answer, status_call, KeyState,
};
use etsi014_client::error::ErrorType;
use etsi014_client::etsi014_client::{
    build_failure_text, invalid_argument, path_text, read_bytes, Call, FileRead,
};
use etsi014_client::exchange::{
    check_count, check_key_count, error_info_text, read_exchange, read_keys, read_status,
    status_from_response, unreadable_answer, Exchange,
};
use etsi014_client::json::key_and_id::KeyAndId;
use etsi014_client::json::key_container::KeyContainer;
use etsi014_client::json::status_response::StatusResponse;
use etsi014_client::{ETSI014Client, SecretBytes, Status};

const STATUS: &str = "{\"source_KME_ID\":\"A\",\"target_KME_ID\":\"B\",\"master_SAE_ID\":\"S1\",\"slave_SAE_ID\":\"S2\",\"key_size\":256,\"stored_key_count\":100000,\"max_key_count\":100000,\"max_key_per_request\":128,\"max_key_size\":1024,\"min_key_size\":64,\"max_SAE_ID_count\":0}";

/// A certificate that signs itself and its private key, both as PEM text,
/// made anew for each test.
fn material() -> (Vec<u8>, Vec<u8>) {
    let group = openssl::ec::EcGroup::from_curve_name(openssl::nid::Nid::X9_62_PRIME256V1).unwrap();
    let pair = openssl::ec::EcKey::generate(&group).unwrap();
    let key = openssl::pkey::PKey::from_ec_key(pair).unwrap();
    let mut name = openssl::x509::X509NameBuilder::new().unwrap();
    name.append_entry_by_text("CN", "localhost").unwrap();
    let name = name.build();
    let serial = openssl::bn::BigNum::from_u32(1).unwrap().to_asn1_integer().unwrap();
    let mut builder = openssl::x509::X509::builder().unwrap();
    builder.set_version(2).unwrap();
    builder.set_serial_number(&serial).unwrap();
    builder.set_subject_name(&name).unwrap();
    builder.set_issuer_name(&name).unwrap();
    builder.set_pubkey(&key).unwrap();
    builder.set_not_before(&openssl::asn1::Asn1Time::days_from_now(0).unwrap()).unwrap();
    builder.set_not_after(&openssl::asn1::Asn1Time::days_from_now(365).unwrap()).unwrap();
    builder.sign(&key, openssl::hash::MessageDigest::sha256()).unwrap();
    (builder.build().to_pem().unwrap(), key.private_key_to_pem_pkcs8().unwrap())
}

fn file(path: &str, content: &[u8]) -> FileRead {
    FileRead { path: format!("{path:?}"), content: Ok(content.to_vec()) }
}

fn unreadable(path: &str) -> FileRead {
    FileRead { path: format!("{path:?}"), content: Err("NotFound".to_string()) }
}

fn make(host: &str, cert: &[u8], key: &[u8], root: &[u8]) -> Result<ETSI014Client, etsi014_client::Error> {
    ETSI014Client::new(
        host,
        8443,
        &file("c.pem", cert),
        &file("k.pem", key),
        &file("ca.pem", root),
    )
}

fn client() -> ETSI014Client {
    let (cert, key) = material();
    make("kme.example", &cert, &key, &cert).unwrap()
}

fn status(number: u16) -> reqwest::StatusCode {
    reqwest::StatusCode::from_u16(number).unwrap()
}

fn body_of(call: &Call) -> Option<String> {
    call.request
        .body()
        .and_then(|b| b.as_bytes())
        .map(|bytes| String::from_utf8(bytes.to_vec()).unwrap())
}

fn answered(http_code: u16, body: &str) -> Exchange {
    Exchange::Answered { status: status(http_code), body: body.to_string() }
}

fn bytes_of(key: &SecretBytes) -> Vec<u8> {
    key.read(|bytes| bytes.to_vec())
}

fn fetch(path: &str) -> Call {
    let url = reqwest::Url::parse(&format!("https://kme.example:8443/{path}")).unwrap();
    Call { request: reqwest::Request::new(reqwest::Method::GET, url), post_body: None }
}

fn post(path: &str, body: &str) -> Call {
    let url = reqwest::Url::parse(&format!("https://kme.example:8443/{path}")).unwrap();
    let mut request = reqwest::Request::new(reqwest::Method::POST, url);
    *request.body_mut() = Some(body.to_string().into());
    Call { request, post_body: Some(body.to_string()) }
}

#[test]
fn base_url_is_https_with_host_and_port() {
    let url = ETSI014Client::base_url("kme.example", 8443).unwrap();
    assert_eq!(url.as_str(), "https://kme.example:8443/");
    assert_eq!(url.scheme(), "https");
    assert_eq!(url.host_str(), Some("kme.example"));
    assert_eq!(url.port(), Some(8443));
}

#[test]
fn base_url_leaves_the_default_port_out() {
    let url = ETSI014Client::base_url("kme.example", 443).unwrap();
    assert_eq!(url.as_str(), "https://kme.example/");
    assert_eq!(url.port_or_known_default(), Some(443));
}

#[test]
fn base_url_takes_addresses() {
    assert_eq!(ETSI014Client::base_url("10.0.0.7", 1).unwrap().as_str(), "https://10.0.0.7:1/");
    assert_eq!(ETSI014Client::base_url("[::1]", 65535).unwrap().as_str(), "https://[::1]:65535/");
}

#[test]
fn base_url_refuses_what_is_no_host() {
    for host in ["", "a b", "[::1", "kme^example"] {
        let e = ETSI014Client::base_url(host, 443).unwrap_err();
        assert_eq!(e.kind, ErrorType::InvalidHost);
        assert_eq!(e.msg, format!("Invalid host: {host}"));
        assert!(e.source.is_some());
    }
}

#[test]
fn base_url_refuses_a_host_that_is_too_long() {
    let host = "a".repeat(0x10_0001);
    let e = ETSI014Client::base_url(&host, 443).unwrap_err();
    assert_eq!(e.kind, ErrorType::InvalidHost);
    assert_eq!(e.source, Some("the host is too long".to_string()));
}

#[test]
fn same_inputs_give_the_same_base_url() {
    let a = ETSI014Client::base_url("KME.Example", 8443).unwrap();
    let b = ETSI014Client::base_url("KME.Example", 8443).unwrap();
    assert_eq!(a, b);
    assert_eq!(a.as_str(), "https://kme.example:8443/");
    let other = ETSI014Client::base_url("KME.Example", 8444).unwrap();
    assert_ne!(a, other);
}

#[test]
fn invalid_argument_keeps_a_value_and_wraps_a_cause() {
    assert_eq!(invalid_argument(Ok::<u8, String>(3), "m").unwrap(), 3);
    let e = invalid_argument(Err::<u8, String>("why".to_string()), "Error creating http client")
        .unwrap_err();
    assert_eq!(e.kind, ErrorType::InvalidArgument);
    assert_eq!(e.msg, "Error creating http client");
    assert_eq!(e.source, Some("why".to_string()));
}

#[test]
fn new_makes_a_client_from_valid_material() {
    let (cert, key) = material();
    let c = make("kme.example", &cert, &key, &cert);
    assert!(c.is_ok());
}

#[test]
fn new_twice_gives_clients_that_ask_the_same() {
    let (cert, key) = material();
    let first = make("kme.example", &cert, &key, &cert).unwrap();
    let second = make("kme.example", &cert, &key, &cert).unwrap();
    let a = first.keys_request(256, "S2", &["S3"], 2).unwrap();
    let b = second.keys_request(256, "S2", &["S3"], 2).unwrap();
    assert_eq!(a.request.url(), b.request.url());
    assert_eq!(a.request.method(), b.request.method());
    assert_eq!(body_of(&a), body_of(&b));
    assert_eq!(a.post_body, b.post_body);
}

#[test]
fn new_refuses_a_bad_host_first() {
    let e = make("a b", b"no", b"no", b"no").unwrap_err();
    assert_eq!(e.kind, ErrorType::InvalidHost);
    assert_eq!(e.msg, "Invalid host: a b");
    let e = ETSI014Client::new("a b", 443, &unreadable("c"), &unreadable("k"), &unreadable("ca"))
        .unwrap_err();
    assert_eq!(e.kind, ErrorType::InvalidHost);
}

#[test]
fn new_refuses_a_root_that_is_no_certificate() {
    let (cert, key) = material();
    let e = make("kme.example", &cert, &key, b"no").unwrap_err();
    assert_eq!(e.kind, ErrorType::InvalidArgument);
    assert_eq!(e.msg, "Error parsing \"ca.pem\"");
    assert!(e.source.is_some());
}

#[test]
fn new_refuses_an_identity_that_does_not_parse() {
    let (cert, key) = material();
    let e = make("kme.example", &cert, b"no", &cert).unwrap_err();
    assert_eq!(e.kind, ErrorType::InvalidArgument);
    assert_eq!(e.msg, "Error parsing \"c.pem\" or \"k.pem\"");
    assert!(e.source.is_some());
    let e = make("kme.example", b"no", &key, &cert).unwrap_err();
    assert_eq!(e.msg, "Error parsing \"c.pem\" or \"k.pem\"");
}

#[test]
fn new_names_the_file_that_could_not_be_read() {
    let (cert, key) = material();
    let e = ETSI014Client::new(
        "kme.example",
        443,
        &file("c.pem", &cert),
        &file("k.pem", &key),
        &unreadable("dir/ca.pem"),
    )
    .unwrap_err();
    assert_eq!(e.kind, ErrorType::InvalidArgument);
    assert_eq!(e.msg, "Error reading \"dir/ca.pem\"");
    assert_eq!(e.source, Some("NotFound".to_string()));
    let e = ETSI014Client::new(
        "kme.example",
        443,
        &unreadable("c.pem"),
        &unreadable("k.pem"),
        &file("ca.pem", &cert),
    )
    .unwrap_err();
    assert_eq!(e.msg, "Error reading \"c.pem\"");
    let e = ETSI014Client::new(
        "kme.example",
        443,
        &file("c.pem", &cert),
        &unreadable("k.pem"),
        &file("ca.pem", &cert),
    )
    .unwrap_err();
    assert_eq!(e.kind, ErrorType::InvalidArgument);
    assert_eq!(e.msg, "Error reading \"k.pem\"");
    assert_eq!(e.source, Some("NotFound".to_string()));
}

#[test]
fn new_reports_the_root_before_the_other_files() {
    let e = ETSI014Client::new(
        "kme.example",
        443,
        &unreadable("c.pem"),
        &unreadable("k.pem"),
        &file("ca.pem", b"no"),
    )
    .unwrap_err();
    assert_eq!(e.msg, "Error parsing \"ca.pem\"");
}

#[test]
fn read_bytes_gives_the_content_or_the_reason() {
    assert_eq!(read_bytes(&file("a", b"xyz")).unwrap(), b"xyz");
    let e = read_bytes(&unreadable("a b")).unwrap_err();
    assert_eq!(e.kind, ErrorType::InvalidArgument);
    assert_eq!(e.msg, "Error reading \"a b\"");
    assert_eq!(e.source, Some("NotFound".to_string()));
}

#[test]
fn assemble_refuses_a_url_with_a_user_name_or_a_password() {
    for text in ["https://user@kme.example/", "https://user:pw@kme.example/", "https://:pw@kme.example/"] {
        let url = reqwest::Url::parse(text).unwrap();
        let e = ETSI014Client::assemble(url, Ok(reqwest::Client::new())).unwrap_err();
        assert_eq!(e.kind, ErrorType::InvalidHost);
        assert_eq!(e.msg, "The URL holds a user name or a password");
        assert_eq!(e.source, None);
    }
}

#[test]
fn assemble_takes_a_plain_url() {
    let url = reqwest::Url::parse("https://kme.example:8443/").unwrap();
    let c = ETSI014Client::assemble(url, Ok(reqwest::Client::new())).unwrap();
    let call = c.status_request("S2").unwrap();
    assert_eq!(call.request.url().as_str(), "https://kme.example:8443/api/v1/keys/S2/status");
}

#[test]
fn a_host_never_brings_a_user_name_or_a_password() {
    let e = ETSI014Client::base_url("user@kme.example", 443).unwrap_err();
    assert_eq!(e.kind, ErrorType::InvalidHost);
    assert_eq!(e.msg, "Invalid host: user@kme.example");
    for host in ["user:pw@kme.example", "kme.example", "kme.example:99"] {
        let url = ETSI014Client::base_url(host, 443).unwrap();
        assert_eq!(url.username(), "");
        assert_eq!(url.password(), None);
    }
}

#[test]
fn assemble_reports_a_client_that_was_not_built() {
    let url = ETSI014Client::base_url("kme.example", 443).unwrap();
    let e = ETSI014Client::assemble(url, Err("no backend".to_string())).unwrap_err();
    assert_eq!(e.kind, ErrorType::InvalidArgument);
    assert_eq!(e.msg, "Error creating http client");
    assert_eq!(e.source, Some("no backend".to_string()));
}

#[test]
fn path_text_joins_prefix_target_and_endpoint() {
    assert_eq!(path_text("S2", "status"), "api/v1/keys/S2/status");
    assert_eq!(path_text("", ""), "api/v1/keys//");
}

#[test]
fn build_failure_text_names_url_and_body() {
    assert_eq!(build_failure_text("https://k/", None), "Error building request for url: https://k/");
    assert_eq!(
        build_failure_text("https://k/", Some("{}")),
        "Error building request for url: https://k/\n\nRequest body: {}"
    );
}

#[test]
fn status_request_fetches_the_status_endpoint() {
    let call = client().status_request("S2").unwrap();
    assert_eq!(call.request.method(), reqwest::Method::GET);
    assert_eq!(call.request.url().as_str(), "https://kme.example:8443/api/v1/keys/S2/status");
    assert!(call.request.body().is_none());
    assert_eq!(call.post_body, None);
}

#[test]
fn request_path_is_percent_encoded() {
    let call = client().status_request("S 2").unwrap();
    assert_eq!(call.request.url().as_str(), "https://kme.example:8443/api/v1/keys/S%202/status");
}

#[test]
fn keys_request_posts_the_key_request_as_json() {
    let call = client().keys_request(256, "S2", &[], 2).unwrap();
    assert_eq!(call.request.method(), reqwest::Method::POST);
    assert_eq!(call.request.url().as_str(), "https://kme.example:8443/api/v1/keys/S2/enc_keys");
    assert_eq!(
        call.request.headers().get(reqwest::header::CONTENT_TYPE).unwrap(),
        "application/json"
    );
    let body = "{\"number\":2,\"size\":256,\"additional_slave_SAE_IDs\":[]}";
    assert_eq!(body_of(&call), Some(body.to_string()));
    assert_eq!(call.post_body, Some(body.to_string()));
}

#[test]
fn keys_by_ids_request_posts_the_identifiers() {
    let call = client().keys_by_ids_request("S1", &["id-1", "id-2"]).unwrap();
    assert_eq!(call.request.method(), reqwest::Method::POST);
    assert_eq!(call.request.url().as_str(), "https://kme.example:8443/api/v1/keys/S1/dec_keys");
    let body = "{\"key_IDs\":[{\"key_ID\":\"id-1\"},{\"key_ID\":\"id-2\"}]}";
    assert_eq!(body_of(&call), Some(body.to_string()));
    assert_eq!(call.post_body, Some(body.to_string()));
}

#[test]
fn build_request_posts_what_it_is_given() {
    let call = client().build_request("S2", "enc_keys", Some("{\"number\":1}".to_string())).unwrap();
    assert_eq!(call.request.method(), reqwest::Method::POST);
    assert_eq!(body_of(&call), Some("{\"number\":1}".to_string()));
    let call = client().build_request("S2", "status", None).unwrap();
    assert_eq!(call.request.method(), reqwest::Method::GET);
}

#[test]
fn http_client_is_handed_out() {
    let c = client();
    let request = c.http_client().get("https://kme.example/").build().unwrap();
    assert_eq!(request.url().as_str(), "https://kme.example/");
}

#[test]
fn error_info_text_lists_what_is_known() {
    assert_eq!(
        error_info_text("Unsuccessful HTTP code", "404 Not Found", "gone", "GET /x", None),
        "Unsuccessful HTTP code\n\nHTTP Code: 404 Not Found\nResponse:\ngone\nUsing request: GET /x"
    );
    assert_eq!(
        error_info_text("s", "500", "", "POST /x", Some("{}")),
        "s\n\nHTTP Code: 500\nResponse:\n\nUsing request: POST /x\nUsing POST body: {}"
    );
}

#[test]
fn unreadable_answer_is_an_invalid_response_with_its_cause() {
    let e = unreadable_answer("200 OK", "[]", "GET /x", None, "why".to_string());
    assert_eq!(e.kind, ErrorType::InvalidResponse);
    assert_eq!(
        e.msg,
        "Unable to deserialize JSON from response.\n\nHTTP Code: 200 OK\nResponse:\n[]\nUsing request: GET /x"
    );
    assert_eq!(e.source, Some("why".to_string()));
}

#[test]
fn request_that_was_not_sent_is_a_connection_error() {
    let call = fetch("api/v1/keys/S2/status");
    let e = read_exchange(&Exchange::NotSent { cause: "refused".to_string() }, &call).unwrap_err();
    assert_eq!(e.kind, ErrorType::ConnectionError);
    assert_eq!(e.msg, format!("Error sending request: {:#?}", call.request));
    assert!(e.msg.contains("https://kme.example:8443/api/v1/keys/S2/status") || e.msg.contains("kme.example"));
    assert_eq!(e.source, Some("refused".to_string()));
}

#[test]
fn body_that_is_no_text_is_an_invalid_response() {
    let call = fetch("api/v1/keys/S2/status");
    let e = read_exchange(&Exchange::Unreadable { cause: "bad".to_string() }, &call).unwrap_err();
    assert_eq!(e.kind, ErrorType::InvalidResponse);
    assert_eq!(e.msg, "Response not UTF-8");
    assert_eq!(e.source, Some("bad".to_string()));
}

#[test]
fn unsuccessful_status_code_is_an_invalid_response_with_the_body() {
    let call = post("api/v1/keys/S2/enc_keys", "{\"number\":1}");
    for (code, printed) in [
        (199u16, "199 <unknown status code>"),
        (300, "300 Multiple Choices"),
        (400, "400 Bad Request"),
        (404, "404 Not Found"),
        (500, "500 Internal Server Error"),
        (100, "100 Continue"),
        (999, "999 <unknown status code>"),
    ] {
        let e = read_exchange(&answered(code, "{\"message\":\"no\"}"), &call).unwrap_err();
        assert_eq!(e.kind, ErrorType::InvalidResponse);
        assert_eq!(
            e.msg,
            format!(
                "Unsuccessful HTTP code\n\nHTTP Code: {printed}\nResponse:\n{{\"message\":\"no\"}}\nUsing request: {:#?}\nUsing POST body: {{\"number\":1}}",
                call.request
            )
        );
        assert_eq!(e.source, None);
    }
}

#[test]
fn every_status_code_from_200_to_299_is_read() {
    let call = fetch("api/v1/keys/S2/status");
    for code in [200u16, 201, 204, 299] {
        let v = read_exchange(&answered(code, "{\"a\":[1,2]}"), &call).unwrap();
        assert_eq!(v.get("a").unwrap().as_array().unwrap().len(), 2);
    }
}

#[test]
fn body_that_is_no_json_is_an_invalid_response() {
    let call = fetch("api/v1/keys/S2/status");
    let e = read_exchange(&answered(200, "{\"a\":"), &call).unwrap_err();
    assert_eq!(e.kind, ErrorType::InvalidResponse);
    assert_eq!(
        e.msg,
        format!(
            "Unable to deserialize JSON from response.\n\nHTTP Code: 200 OK\nResponse:\n{{\"a\":\nUsing request: {:#?}",
            call.request
        )
    );
    assert!(e.source.is_some());
}

#[test]
fn status_from_response_keeps_every_field() {
    let sr = StatusResponse {
        source_kme_id: "A".to_string(),
        target_kme_id: "B".to_string(),
        source_sae_id: "S1".to_string(),
        target_sae_id: "S2".to_string(),
        key_size: 1,
        stored_key_count: 2,
        max_key_count: 3,
        max_key_per_request: 4,
        max_key_size: 5,
        min_key_size: 6,
        max_sae_id_count: 7,
    };
    assert_eq!(
        status_from_response(sr),
        Status {
            source_kme_id: "A".to_string(),
            target_kme_id: "B".to_string(),
            source_sae_id: "S1".to_string(),
            target_sae_id: "S2".to_string(),
            key_size: 1,
            stored_key_count: 2,
            max_key_count: 3,
            max_key_per_request: 4,
            max_key_size: 5,
            min_key_size: 6,
            max_sae_id_count: 7,
        }
    );
}

#[test]
fn status_scenario_yields_matching_fields() {
    let call = fetch("api/v1/keys/S2/status");
    let s = read_status(&answered(200, STATUS), &call).unwrap();
    assert_eq!(
        s,
        Status {
            source_kme_id: "A".to_string(),
            target_kme_id: "B".to_string(),
            source_sae_id: "S1".to_string(),
            target_sae_id: "S2".to_string(),
            key_size: 256,
            stored_key_count: 100000,
            max_key_count: 100000,
            max_key_per_request: 128,
            max_key_size: 1024,
            min_key_size: 64,
            max_sae_id_count: 0,
        }
    );
}

#[test]
fn status_with_a_member_missing_is_an_invalid_response() {
    let call = fetch("api/v1/keys/S2/status");
    let body = STATUS.replace("\"key_size\":256,", "");
    let e = read_status(&answered(200, &body), &call).unwrap_err();
    assert_eq!(e.kind, ErrorType::InvalidResponse);
    assert!(e.msg.starts_with("Unable to deserialize JSON from response.\n\nHTTP Code: 200 OK\n"));
    assert_eq!(e.source, Some("missing or invalid field: key_size".to_string()));
}

#[test]
fn status_of_a_failed_exchange_is_the_failure() {
    let call = fetch("api/v1/keys/S2/status");
    let e = read_status(&answered(503, STATUS), &call).unwrap_err();
    assert_eq!(e.kind, ErrorType::InvalidResponse);
    assert!(e.msg.starts_with("Unsuccessful HTTP code\n\nHTTP Code: 503 Service Unavailable\n"));
    let e = read_status(&Exchange::NotSent { cause: "down".to_string() }, &call).unwrap_err();
    assert_eq!(e.kind, ErrorType::ConnectionError);
}

#[test]
fn check_count_accepts_only_the_number_asked_for() {
    assert!(check_count(2, 2).is_ok());
    assert!(check_count(0, 0).is_ok());
    let e = check_count(1, 2).unwrap_err();
    assert_eq!(e.kind, ErrorType::InvalidResponse);
    assert_eq!(e.msg, "Got 1 instead of 2 keys");
    assert_eq!(e.source, None);
    assert_eq!(check_count(3, 2).unwrap_err().msg, "Got 3 instead of 2 keys");
    assert_eq!(check_count(0, 1).unwrap_err().msg, "Got 0 instead of 1 keys");
}

#[test]
fn check_key_count_passes_the_container_on() {
    let kc = KeyContainer {
        keys: vec![KeyAndId { key_id: "a".to_string(), key: "AAAA".to_string() }],
    };
    assert_eq!(check_key_count(kc.clone(), 1).unwrap(), kc);
    let e = check_key_count(kc, 3).unwrap_err();
    assert_eq!(e.msg, "Got 1 instead of 3 keys");
}

#[test]
fn two_keys_asked_one_returned_is_refused() {
    let asked = etsi014_client::json::key_request::KeyRequest {
        number: 2,
        size: Some(256),
        additional_target_sae_ids: &[],
        extension_mandatory: None,
    };
    let call = post("api/v1/keys/S2/enc_keys", &asked.to_json());
    let body = "{\"keys\":[{\"key_ID\":\"id-1\",\"key\":\"AAAA\"}]}";
    let e = read_keys(&answered(200, body), &call, 2).unwrap_err();
    assert_eq!(e.kind, ErrorType::InvalidResponse);
    assert!(e.msg.contains("1 instead of 2"));
    assert_eq!(e.msg, "Got 1 instead of 2 keys");
}

#[test]
fn more_keys_than_asked_for_are_refused() {
    let call = post("api/v1/keys/S2/enc_keys", "{}");
    let body = "{\"keys\":[{\"key_ID\":\"a\",\"key\":\"AAAA\"},{\"key_ID\":\"b\",\"key\":\"AAAA\"}]}";
    let e = read_keys(&answered(200, body), &call, 1).unwrap_err();
    assert_eq!(e.kind, ErrorType::InvalidResponse);
    assert_eq!(e.msg, "Got 2 instead of 1 keys");
    let e = read_keys(&answered(200, "{\"keys\":[]}"), &call, 1).unwrap_err();
    assert_eq!(e.msg, "Got 0 instead of 1 keys");
}

#[test]
fn wrong_count_is_refused_even_where_a_key_is_corrupted() {
    let call = post("api/v1/keys/S2/enc_keys", "{}");
    let body = "{\"keys\":[{\"key_ID\":\"a\",\"key\":\"****\"}]}";
    let e = read_keys(&answered(200, body), &call, 2).unwrap_err();
    assert_eq!(e.kind, ErrorType::InvalidResponse);
    assert_eq!(e.msg, "Got 1 instead of 2 keys");
}

#[test]
fn keys_by_ids_scenario_yields_two_keys_of_three_zero_bytes() {
    let asked = etsi014_client::json::keys_by_ids_request::KeysByIdsRequest {
        key_ids: vec![
            etsi014_client::json::key_id::KeyId { key_id: "id-1" },
            etsi014_client::json::key_id::KeyId { key_id: "id-2" },
        ],
    };
    let call = post("api/v1/keys/S1/dec_keys", &asked.to_json());
    assert_eq!(
        call.post_body,
        Some("{\"key_IDs\":[{\"key_ID\":\"id-1\"},{\"key_ID\":\"id-2\"}]}".to_string())
    );
    let body = "{\"keys\":[{\"key_ID\":\"id-1\",\"key\":\"AAAA\"},{\"key_ID\":\"id-2\",\"key\":\"AAAA\"}]}";
    let keys = read_keys(&answered(200, body), &call, 2).unwrap();
    assert_eq!(keys.len(), 2);
    assert_eq!(keys[0].0, "id-1");
    assert_eq!(keys[1].0, "id-2");
    for (_, key) in &keys {
        assert_eq!(key.len(), 3);
        assert_eq!(bytes_of(key), vec![0, 0, 0]);
    }
    let ckeys = etsi014_client::c::marshal_keys(keys, 2).unwrap();
    for mut c in ckeys {
        assert_eq!(c.key_size, 3);
        let mut token = c.key_bytes_protected.unprotect();
        assert!(token.is_some());
        assert!(c.key_bytes_protected.unprotect().is_none());
        let read = c.key_bytes_protected.borrowed_key(token.as_ref().unwrap()).map(bytes_of);
        assert_eq!(read, Some(vec![0, 0, 0]));
        c.key_bytes_protected.protect(&mut token);
        assert!(token.is_none());
        assert_eq!(c.key_bytes_protected.current_state(), KeyState::Protected);
        c.key_bytes_protected.free();
        assert_eq!(c.key_bytes_protected.current_state(), KeyState::Freed);
    }
}

#[test]
fn one_corrupted_key_refuses_the_whole_answer() {
    let call = post("api/v1/keys/S2/dec_keys", "{}");
    let body = "{\"keys\":[{\"key_ID\":\"id-1\",\"key\":\"AAAA\"},{\"key_ID\":\"id-2\",\"key\":\"AA-A\"}]}";
    let e = read_keys(&answered(200, body), &call, 2).unwrap_err();
    assert_eq!(e.kind, ErrorType::InvalidResponse);
    assert_eq!(e.msg, "Error decoding base64 for uuid id-2");
}

#[test]
fn answer_that_is_no_key_container_is_an_invalid_response() {
    let call = post("api/v1/keys/S2/enc_keys", "{\"number\":1}");
    let e = read_keys(&answered(200, "{\"kees\":[]}"), &call, 0).unwrap_err();
    assert_eq!(e.kind, ErrorType::InvalidResponse);
    assert!(e.msg.starts_with("Unable to deserialize JSON from response."));
    assert!(e.msg.ends_with("\nUsing POST body: {\"number\":1}"));
    assert_eq!(e.source, Some("missing or invalid field: keys".to_string()));
}

#[test]
fn keys_of_a_failed_exchange_are_the_failure() {
    let call = post("api/v1/keys/S2/enc_keys", "{}");
    let e = read_keys(&answered(401, "denied"), &call, 1).unwrap_err();
    assert_eq!(e.kind, ErrorType::InvalidResponse);
    assert!(e.msg
        .starts_with("Unsuccessful HTTP code\n\nHTTP Code: 401 Unauthorized\nResponse:\ndenied\n"));
    let e = read_keys(&Exchange::NotSent { cause: "down".to_string() }, &call, 1).unwrap_err();
    assert_eq!(e.kind, ErrorType::ConnectionError);
}

#[test]
fn get_status_sends_once_and_reads_the_answer() {
    let c = client();
    let mut sent = Vec::new();
    let s = c
        .get_status("S2", |call: &Call| {
            sent.push(call.request.url().as_str().to_string());
            answered(200, STATUS)
        })
        .unwrap();
    assert_eq!(sent, vec!["https://kme.example:8443/api/v1/keys/S2/status".to_string()]);
    assert_eq!(s.source_sae_id, "S1");
    assert_eq!(s.target_sae_id, "S2");
}

#[test]
fn get_keys_asks_for_the_number_it_reads() {
    let c = client();
    let body = "{\"keys\":[{\"key_ID\":\"id-1\",\"key\":\"AAAA\"}]}";
    let mut bodies = Vec::new();
    let e = c
        .get_keys(256, "S2", &["S3"], 2, |call: &Call| {
            bodies.push(call.post_body.clone());
            answered(200, body)
        })
        .unwrap_err();
    assert_eq!(
        bodies,
        vec![Some("{\"number\":2,\"size\":256,\"additional_slave_SAE_IDs\":[\"S3\"]}".to_string())]
    );
    assert_eq!(e.kind, ErrorType::InvalidResponse);
    assert_eq!(e.msg, "Got 1 instead of 2 keys");
    let keys = c.get_keys(256, "S2", &[], 1, |_call: &Call| answered(200, body)).unwrap();
    assert_eq!(keys.len(), 1);
    assert_eq!(bytes_of(&keys[0].1), vec![0, 0, 0]);
}

#[test]
fn get_keys_by_ids_reads_one_key_for_each_identifier() {
    let c = client();
    let body = "{\"keys\":[{\"key_ID\":\"id-1\",\"key\":\"AAAA\"},{\"key_ID\":\"id-2\",\"key\":\"AAAA\"}]}";
    let keys = c.get_keys_by_ids("S1", &["id-1", "id-2"], |_call: &Call| answered(200, body)).unwrap();
    assert_eq!(keys.len(), 2);
    assert_eq!(keys[1].0, "id-2");
    let e = c
        .get_keys_by_ids("S1", &["id-1"], |_call: &Call| Exchange::NotSent { cause: "down".to_string() })
        .unwrap_err();
    assert_eq!(e.kind, ErrorType::ConnectionError);
    assert_eq!(e.source, Some("down".to_string()));
}

#[test]
fn a_handle_that_points_to_nothing_is_refused() {
    let e = client_handle(None).unwrap_err();
    assert_eq!(e.kind, ErrorType::InvalidArgument);
    assert_eq!(e.msg, "Null pointer passed to get_status");
    assert_eq!(e.source, None);
    assert_eq!(status_call(None, b"S2").unwrap_err().msg, "Null pointer passed to get_status");
    assert_eq!(keys_call(None, 256, b"S2", 0, 2).unwrap_err().msg, "Null pointer passed to get_status");
    let ids: [&[u8]; 1] = [b"id-1"];
    assert_eq!(
        keys_by_ids_call(None, b"S1", &ids).unwrap_err().msg,
        "Null pointer passed to get_status"
    );
}

#[test]
fn a_handle_that_points_to_a_client_gives_the_client() {
    let c = client();
    assert!(client_handle(Some(&c)).is_ok());
}

#[test]
fn status_call_checks_handle_then_text() {
    let e = status_call(None, &[0xff]).unwrap_err();
    assert_eq!(e.msg, "Null pointer passed to get_status");
    let c = client();
    let e = status_call(Some(&c), &[0xff]).unwrap_err();
    assert_eq!(e.kind, ErrorType::InvalidArgument);
    assert_eq!(e.msg, "target_sae_id is not valid UTF8");
    let call = status_call(Some(&c), b"S2").unwrap();
    assert_eq!(call.request.url().as_str(), "https://kme.example:8443/api/v1/keys/S2/status");
}

#[test]
fn status_answer_lays_the_status_out() {
    let call = fetch("api/v1/keys/S2/status");
    let c = status_answer(&answered(200, STATUS), &call).unwrap();
    assert_eq!(&c.source_kme_id[..2], b"A\0");
    assert_eq!(&c.target_kme_id[..2], b"B\0");
    assert_eq!(&c.source_sae_id[..3], b"S1\0");
    assert_eq!(&c.target_sae_id[..3], b"S2\0");
    assert_eq!(c.key_size, 256);
    assert_eq!(c.max_sae_id_count, 0);
}

#[test]
fn status_answer_refuses_an_identifier_that_does_not_fit() {
    let call = fetch("api/v1/keys/S2/status");
    let long = "k".repeat(300);
    let body = STATUS.replace("\"target_KME_ID\":\"B\"", &format!("\"target_KME_ID\":\"{long}\""));
    let e = status_answer(&answered(200, &body), &call).unwrap_err();
    assert_eq!(e.kind, ErrorType::InvalidResponse);
    assert_eq!(e.msg, format!("String longer than 255 characters (301): {long}"));
    let e = status_answer(&answered(500, STATUS), &call).unwrap_err();
    assert!(e.msg.starts_with("Unsuccessful HTTP code"));
}

#[test]
fn keys_call_asks_for_keys_without_further_applications() {
    let c = client();
    let call = keys_call(Some(&c), 256, b"S2", 0, 2).unwrap();
    assert_eq!(call.request.url().as_str(), "https://kme.example:8443/api/v1/keys/S2/enc_keys");
    assert_eq!(
        call.post_body,
        Some("{\"number\":2,\"size\":256,\"additional_slave_SAE_IDs\":[]}".to_string())
    );
    assert_eq!(keys_call(None, 256, b"S2", 0, 2).unwrap_err().msg, "Null pointer passed to get_status");
    assert_eq!(
        keys_call(Some(&c), 256, &[0x80], 0, 2).unwrap_err().msg,
        "target_sae_id is not valid UTF8"
    );
}

#[test]
fn keys_call_refuses_further_applications_without_sending() {
    let c = client();
    for (handle, target) in [(Some(&c), &b"S2"[..]), (None, &b"S2"[..]), (Some(&c), &[0xff][..])] {
        let e = keys_call(handle, 256, target, 1, 2).unwrap_err();
        assert_eq!(e.kind, ErrorType::InvalidArgument);
        assert_eq!(e.msg, "additional_target_sae_ids not yet implemented in c bindings");
        assert_eq!(e.source, None);
    }
}

#[test]
fn keys_answer_lays_out_one_slot_per_key() {
    let call = post("api/v1/keys/S2/enc_keys", "{}");
    let body = "{\"keys\":[{\"key_ID\":\"id-1\",\"key\":\"AQID\"},{\"key_ID\":\"id-2\",\"key\":\"BA==\"}]}";
    let ckeys = keys_answer(&answered(200, body), &call, 2).unwrap();
    assert_eq!(ckeys.len(), 2);
    assert_eq!(&ckeys[0].uuid[..5], b"id-1\0");
    assert_eq!(ckeys[0].key_size, 3);
    assert_eq!(&ckeys[1].uuid[..5], b"id-2\0");
    assert_eq!(ckeys[1].key_size, 1);
    assert_eq!(ckeys[0].key_bytes_protected.entry_id(), 0);
    assert_eq!(ckeys[1].key_bytes_protected.entry_id(), 1);
}

#[test]
fn keys_answer_fails_as_a_whole() {
    let call = post("api/v1/keys/S2/enc_keys", "{}");
    let body = "{\"keys\":[{\"key_ID\":\"id-1\",\"key\":\"AQID\"}]}";
    let e = keys_answer(&answered(200, body), &call, 2).unwrap_err();
    assert_eq!(e.kind, ErrorType::InvalidResponse);
    assert_eq!(e.msg, "Got 1 instead of 2 keys");
    let long = "x".repeat(40);
    let body = format!(
        "{{\"keys\":[{{\"key_ID\":\"id-1\",\"key\":\"AQID\"}},{{\"key_ID\":\"{long}\",\"key\":\"AQID\"}}]}}"
    );
    let e = keys_answer(&answered(200, &body), &call, 2).unwrap_err();
    assert_eq!(e.kind, ErrorType::InvalidResponse);
    assert_eq!(e.msg, format!("String longer than 37 characters (41): {long}"));
}

#[test]
fn keys_by_ids_call_checks_handle_target_and_identifiers() {
    let c = client();
    let ids: [&[u8]; 2] = [b"id-1", b"id-2"];
    let call = keys_by_ids_call(Some(&c), b"S1", &ids).unwrap();
    assert_eq!(call.request.url().as_str(), "https://kme.example:8443/api/v1/keys/S1/dec_keys");
    assert_eq!(
        call.post_body,
        Some("{\"key_IDs\":[{\"key_ID\":\"id-1\"},{\"key_ID\":\"id-2\"}]}".to_string())
    );
    let bad: [&[u8]; 2] = [&[0xff], b"id-2"];
    assert_eq!(keys_by_ids_call(None, &[0xff], &bad).unwrap_err().msg, "Null pointer passed to get_status");
    assert_eq!(
        keys_by_ids_call(Some(&c), &[0xff], &bad).unwrap_err().msg,
        "target_sae_id is not valid UTF8"
    );
    let e = keys_by_ids_call(Some(&c), b"S1", &bad).unwrap_err();
    assert_eq!(e.kind, ErrorType::InvalidArgument);
    assert_eq!(e.msg, "SAE ID 0 is not valid UTF8");
}
