use hostman::{
    check_headers, decimal_text, plan_call, prepare_request, response_text, status_text,
    DispatchError, HttpMethod, HttpRequest, Payload,
};

fn s(text: &str) -> String {
    text.to_string()
}

fn request(method: HttpMethod) -> HttpRequest {
    let mut req = HttpRequest::default();
    req.method = method;
    req.url = s("http://localhost:8080/test");
    req
}

#[test]
fn get_forwards_headers_and_query_without_body() {
    let mut req = request(HttpMethod::GET);
    req.headers.insert(s("X-Test"), s("1"));
    req.query_params.insert(s("q"), s("abc"));
    let call = prepare_request(&req).unwrap();
    assert_eq!(call.method, HttpMethod::GET);
    assert_eq!(call.url, "http://localhost:8080/test");
    assert_eq!(call.headers, vec![(s("X-Test"), s("1"))]);
    assert_eq!(call.query, vec![(s("q"), s("abc"))]);
    assert!(matches!(call.payload, Payload::Empty));
}

#[test]
fn get_sends_authorization_header_again() {
    let mut req = request(HttpMethod::GET);
    req.headers.insert(s("Authorization"), s("Bearer t"));
    let call = plan_call(&req);
    assert_eq!(
        call.headers,
        vec![(s("Authorization"), s("Bearer t")), (s("authorization"), s("Bearer t"))]
    );
}

#[test]
fn post_sends_body_as_form_only() {
    let mut req = request(HttpMethod::POST);
    req.body.insert(s("a"), s("1"));
    req.body.insert(s("b"), s("2"));
    req.headers.insert(s("X-Custom"), s("yes"));
    req.query_params.insert(s("q"), s("abc"));
    let call = prepare_request(&req).unwrap();
    assert_eq!(
        call.headers,
        vec![(s("content-type"), s("application/x-www-form-urlencoded"))]
    );
    assert!(call.query.is_empty());
    match call.payload {
        Payload::Form(pairs) => assert_eq!(pairs, vec![(s("a"), s("1")), (s("b"), s("2"))]),
        other => panic!("expected a form, got {:?}", other),
    }
}

#[test]
fn post_does_not_parse_user_headers() {
    let mut req = request(HttpMethod::POST);
    req.headers.insert(s("bad name"), s("1"));
    assert!(prepare_request(&req).is_ok());
}

#[test]
fn put_patch_delete_send_query_as_headers_and_query() {
    for method in [HttpMethod::PUT, HttpMethod::PATCH, HttpMethod::DELETE] {
        let mut req = request(method);
        req.query_params.insert(s("q"), s("abc"));
        req.headers.insert(s("X-Ignored"), s("1"));
        req.body.insert(s("a"), s("1"));
        let call = prepare_request(&req).unwrap();
        assert_eq!(call.method, method);
        assert_eq!(call.headers, vec![(s("q"), s("abc"))]);
        assert_eq!(call.query, vec![(s("q"), s("abc"))]);
        match (method, call.payload) {
            (HttpMethod::DELETE, Payload::Empty) => {}
            (HttpMethod::PUT, Payload::Json(p)) | (HttpMethod::PATCH, Payload::Json(p)) => {
                assert_eq!(p, vec![(s("a"), s("1"))])
            }
            (m, p) => panic!("unexpected payload {:?} for {:?}", p, m),
        }
    }
}

#[test]
fn invalid_header_name_is_refused_before_sending() {
    let mut req = request(HttpMethod::GET);
    req.headers.insert(s("bad name"), s("1"));
    match prepare_request(&req) {
        Err(DispatchError::MalformedHeader(m)) => assert_eq!(m, "invalid HTTP header name"),
        other => panic!("expected a refused header name, got {:?}", other),
    }
}

#[test]
fn empty_header_name_is_refused() {
    let mut req = request(HttpMethod::DELETE);
    req.query_params.insert(s(""), s("1"));
    match prepare_request(&req) {
        Err(DispatchError::MalformedHeader(m)) => assert_eq!(m, "invalid HTTP header name"),
        other => panic!("expected a refused header name, got {:?}", other),
    }
}

#[test]
fn invalid_header_value_is_refused_before_sending() {
    let mut req = request(HttpMethod::PUT);
    req.query_params.insert(s("q"), s("a\nb"));
    match prepare_request(&req) {
        Err(DispatchError::MalformedHeader(m)) => assert_eq!(m, "failed to parse header value"),
        other => panic!("expected a refused header value, got {:?}", other),
    }
}

#[test]
fn header_check_stops_at_first_refusal() {
    let pairs = vec![(s("Ok-Name"), s("bad\u{7f}")), (s("bad name"), s("1"))];
    match check_headers(&pairs) {
        Err(DispatchError::MalformedHeader(m)) => assert_eq!(m, "failed to parse header value"),
        other => panic!("expected a refused header value, got {:?}", other),
    }
    let fine = vec![(s("X-Token_1~"), s("tab\tand unicode é"))];
    assert!(check_headers(&fine).is_ok());
}

#[test]
fn not_found_is_a_completed_call() {
    let text = response_text(&Ok((404, s("not found"))));
    assert_eq!(text, "Status 404 \nResponse: \"\\\"not found\\\"\"");
}

#[test]
fn body_is_quoted_as_json_then_escaped() {
    let text = response_text(&Ok((200, s("a\"b\nc"))));
    assert_eq!(text, "Status 200 \nResponse: \"\\\"a\\\\\\\"b\\\\nc\\\"\"");
}

#[test]
fn errors_are_reported_with_prefix() {
    assert_eq!(
        response_text(&Err(DispatchError::Transport(s("connection refused")))),
        "Error: connection refused"
    );
    assert_eq!(
        response_text(&Err(DispatchError::MalformedHeader(s("invalid HTTP header name")))),
        "Error: invalid HTTP header name"
    );
}

#[test]
fn status_codes_are_written_in_decimal() {
    assert_eq!(decimal_text(0), "0");
    assert_eq!(decimal_text(7), "7");
    assert_eq!(decimal_text(200), "200");
    assert_eq!(decimal_text(65535), "65535");
    assert_eq!(status_text(500, "x"), "Status 500 \nResponse: x");
}

#[test]
fn refused_header_is_reported_with_the_client_text() {
    let mut req = request(HttpMethod::GET);
    req.headers.insert(s("bad name"), s("1"));
    let outcome = prepare_request(&req).map(|_| (200u16, String::new()));
    assert_eq!(response_text(&outcome), "Error: invalid HTTP header name");
}

#[test]
fn server_error_status_is_a_completed_call() {
    let text = response_text(&Ok((500, String::new())));
    assert!(text.starts_with("Status 500 "));
    assert!(!text.starts_with("Error:"));
}
