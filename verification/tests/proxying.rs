use load_balancer::proxy::{
    ClientResponse, Method, ProxyError, ProxyTranslator, UpstreamRequest, UpstreamResponse,
    CONTENT_TYPE, MESSAGE_FIELD, UPSTREAM_PATH,
};

#[test]
fn the_fixed_parts_of_a_request() {
    assert_eq!(UPSTREAM_PATH, "/echo");
    assert_eq!(CONTENT_TYPE, "application/json");
    assert_eq!(MESSAGE_FIELD, "message");
}

#[test]
fn a_request_carries_the_payload_to_the_backend() {
    let request = ProxyTranslator::prepare("http://10.0.0.1:9000", b"hello").unwrap();
    assert_eq!(
        request,
        UpstreamRequest {
            method: Method::Post,
            target: "http://10.0.0.1:9000/echo".to_string(),
            host: "http://10.0.0.1:9000".to_string(),
            content_type: "application/json".to_string(),
            body: "hello".to_string(),
        }
    );
}

#[test]
fn the_target_of_a_request_is_a_uri_that_hyper_takes() {
    let request = ProxyTranslator::prepare("http://localhost:8081", b"{}").unwrap();
    let uri: hyper::Uri = request.target.parse().unwrap();
    assert_eq!(uri.scheme_str(), Some("http"));
    assert_eq!(uri.host(), Some("localhost"));
    assert_eq!(uri.port_u16(), Some(8081));
    assert_eq!(uri.path(), "/echo");
    assert!(hyper::header::HeaderValue::from_str(&request.host).is_ok());
}

#[test]
fn bad_bytes_in_a_payload_are_replaced() {
    let request = ProxyTranslator::prepare("http://backend", &[b'h', b'i', 0xff, b'!']).unwrap();
    assert_eq!(request.body, "hi\u{fffd}!");
}

#[test]
fn a_payload_in_utf8_is_kept_as_it_is() {
    let request = ProxyTranslator::prepare("http://backend", "gr\u{fc}\u{df}e".as_bytes()).unwrap();
    assert_eq!(request.body, "gr\u{fc}\u{df}e");
}

#[test]
fn an_empty_payload_gives_an_empty_body() {
    let request = ProxyTranslator::prepare("http://backend", b"").unwrap();
    assert_eq!(request.body, "");
}

#[test]
fn an_address_with_a_space_is_an_upstream_failure() {
    let result = ProxyTranslator::prepare("http://bad host", b"x");
    assert_eq!(
        result,
        Err(ProxyError::UpstreamFailure("Invalid URI: invalid uri character".to_string()))
    );
}

#[test]
fn an_address_without_a_scheme_is_an_upstream_failure() {
    let result = ProxyTranslator::prepare("server1", b"x");
    assert_eq!(
        result,
        Err(ProxyError::UpstreamFailure("Invalid URI: invalid format".to_string()))
    );
}

#[test]
fn an_address_with_a_line_break_is_an_upstream_failure() {
    match ProxyTranslator::prepare("http://backend\n", b"x") {
        Err(ProxyError::UpstreamFailure(cause)) => assert!(cause.starts_with("Invalid URI: ")),
        other => panic!("unexpected: {:?}", other),
    }
}

#[test]
fn a_message_is_worded_for_the_client() {
    let response = ProxyTranslator::complete(br#"{"message":"pong"}"#).unwrap();
    assert_eq!(response.text, "Response from server pong:\n");
}

#[test]
fn the_line_for_the_client_ends_with_a_newline() {
    let response = ProxyTranslator::complete(br#"{"message":"pong"}"#).unwrap();
    assert_eq!(response.text.lines().collect::<Vec<_>>(), vec!["Response from server pong:"]);
    assert!(response.text.ends_with('\n'));
}

#[test]
fn an_empty_message_is_a_message() {
    let response = ProxyTranslator::complete(br#"{"message":""}"#).unwrap();
    assert_eq!(response.text, "Response from server :\n");
}

#[test]
fn other_members_are_passed_over() {
    let body = br#"{"status": 200, "message": "all good", "tags": ["a", "b"]}"#;
    let response = ProxyTranslator::complete(body).unwrap();
    assert_eq!(response.text, "Response from server all good:\n");
}

#[test]
fn escapes_in_the_message_are_resolved() {
    let response = ProxyTranslator::complete(br#"{"message":"a\"b\u00e9\n"}"#).unwrap();
    assert_eq!(response.text, "Response from server a\"b\u{e9}\n:\n");
}

#[test]
fn a_body_that_is_no_json_is_an_invalid_response() {
    assert_eq!(ProxyTranslator::complete(b"<html>oops</html>"), Err(ProxyError::InvalidResponse));
    assert_eq!(ProxyTranslator::complete(b""), Err(ProxyError::InvalidResponse));
    assert_eq!(ProxyTranslator::complete(b"{\"message\":\"cut"), Err(ProxyError::InvalidResponse));
}

#[test]
fn a_body_without_the_message_is_an_invalid_response() {
    assert_eq!(ProxyTranslator::complete(br#"{"msg":"pong"}"#), Err(ProxyError::InvalidResponse));
    assert_eq!(ProxyTranslator::complete(b"{}"), Err(ProxyError::InvalidResponse));
}

#[test]
fn a_message_that_is_no_string_is_an_invalid_response() {
    assert_eq!(ProxyTranslator::complete(br#"{"message":5}"#), Err(ProxyError::InvalidResponse));
    assert_eq!(ProxyTranslator::complete(br#"{"message":null}"#), Err(ProxyError::InvalidResponse));
    assert_eq!(
        ProxyTranslator::complete(br#"{"message":{"text":"pong"}}"#),
        Err(ProxyError::InvalidResponse)
    );
}

#[test]
fn a_body_that_is_no_object_is_an_invalid_response() {
    assert_eq!(ProxyTranslator::complete(br#"["pong"]"#), Err(ProxyError::InvalidResponse));
    assert_eq!(ProxyTranslator::complete(br#""pong""#), Err(ProxyError::InvalidResponse));
    assert_eq!(ProxyTranslator::complete(b"17"), Err(ProxyError::InvalidResponse));
}

#[test]
fn bad_bytes_in_a_body_are_replaced_before_it_is_read() {
    let mut body = br#"{"message":"a"#.to_vec();
    body.push(0xff);
    body.extend_from_slice(br#"b"}"#);
    let response = ProxyTranslator::complete(&body).unwrap();
    assert_eq!(response.text, "Response from server a\u{fffd}b:\n");
}

#[test]
fn decoding_gives_the_message() {
    let response = UpstreamResponse::decode(br#"{"message":"pong"}"#).unwrap();
    assert_eq!(response, UpstreamResponse { message: "pong".to_string() });
    assert_eq!(UpstreamResponse::decode(b"pong"), Err(ProxyError::InvalidResponse));
}

#[test]
fn a_found_member_is_the_answer_and_a_missing_one_is_an_error() {
    assert_eq!(
        UpstreamResponse::from_member(Some("pong".to_string())),
        Ok(UpstreamResponse { message: "pong".to_string() })
    );
    assert_eq!(UpstreamResponse::from_member(None), Err(ProxyError::InvalidResponse));
}

#[test]
fn rendering_words_the_message() {
    let rendered = ClientResponse::render(&UpstreamResponse { message: "42".to_string() });
    assert_eq!(rendered, ClientResponse { text: "Response from server 42:\n".to_string() });
}
