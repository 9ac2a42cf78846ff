use crate::header_rules::{
    header_name_acceptable, header_name_refusal, header_value_acceptable, header_value_refusal,
    parse_header_name, parse_header_value,
};
use crate::http_method::HttpMethod;
use crate::http_request::HttpRequest;
use crate::key_value::{PairView, keys_unique, pairs_view};
use vstd::prelude::*;

verus! {

/// Why a request could not be sent, or what went wrong while it was. Each
/// kind carries the text that is shown to the user.
#[derive(Debug)]
pub enum DispatchError {
    /// A header name or value the HTTP client does not accept.
    MalformedHeader(String),
    /// The network call failed.
    Transport(String),
}

/// What an outgoing call carries as its payload.
#[derive(Debug)]
pub enum Payload {
    /// No body.
    Empty,
    /// The pairs, sent URL-encoded as a form.
    Form(Vec<(String, String)>),
    /// The pairs, sent as one JSON object.
    Json(Vec<(String, String)>),
}

/// One outgoing HTTP call, described in plain values.
#[derive(Debug)]
pub struct OutgoingCall {
    pub method: HttpMethod,
    pub url: String,
    /// Header names and values, applied in order; a later one replaces an
    /// earlier one of the same name.
    pub headers: Vec<(String, String)>,
    /// Pairs appended to the URL's query string.
    pub query: Vec<(String, String)>,
    pub payload: Payload,
}

/// The header name that carries credentials when a GET request supplies it.
pub open spec fn authorization_key() -> Seq<char> {
    "Authorization"@
}

/// The headers each method sends. GET forwards the user's headers and sends
/// an `Authorization` header again as the authorization header; POST sends
/// only the form content type; the others send the query parameters as headers.
pub open spec fn planned_headers(req: HttpRequest) -> Seq<PairView> {
    match req.method {
        HttpMethod::GET => if req.headers@.contains_key(authorization_key()) {
            req.headers.pairs().push(("authorization"@, req.headers@[authorization_key()]))
        } else {
            req.headers.pairs()
        },
        HttpMethod::POST => seq![("content-type"@, "application/x-www-form-urlencoded"@)],
        _ => req.query_params.pairs(),
    }
}

/// The user-supplied headers that must be parsed before anything is sent.
pub open spec fn checked_headers(req: HttpRequest) -> Seq<PairView> {
    match req.method {
        HttpMethod::GET => req.headers.pairs(),
        HttpMethod::POST => Seq::empty(),
        _ => req.query_params.pairs(),
    }
}

/// The query string pairs each method sends: all but POST send the query
/// parameters.
pub open spec fn planned_query(req: HttpRequest) -> Seq<PairView> {
    match req.method {
        HttpMethod::POST => Seq::empty(),
        _ => req.query_params.pairs(),
    }
}

/// The payload each method sends: POST the body as a form, PUT and PATCH the
/// body as JSON, each key once, GET and DELETE nothing.
pub open spec fn payload_planned(p: Payload, req: HttpRequest) -> bool {
    match req.method {
        HttpMethod::POST => p matches Payload::Form(v) && pairs_view(v@) == req.body.pairs()
            && keys_unique(pairs_view(v@)),
        HttpMethod::PUT | HttpMethod::PATCH => p matches Payload::Json(v) && pairs_view(v@)
            == req.body.pairs() && keys_unique(pairs_view(v@)),
        _ => p matches Payload::Empty,
    }
}

/// `call` is the outgoing call that `req` describes.
pub open spec fn call_planned(call: OutgoingCall, req: HttpRequest) -> bool {
    &&& call.method == req.method
    &&& call.url@ == req.url@
    &&& pairs_view(call.headers@) == planned_headers(req)
    &&& pairs_view(call.query@) == planned_query(req)
    &&& payload_planned(call.payload, req)
}

/// The client's text for the first header that it would refuse, checking
/// each pair's name before its value.
pub open spec fn header_check(pairs: Seq<PairView>) -> Result<(), Seq<char>>
    decreases pairs.len(),
{
    if pairs.len() == 0 {
        Ok(())
    } else if !header_name_acceptable(pairs[0].0) {
        Err(header_name_refusal())
    } else if !header_value_acceptable(pairs[0].1) {
        Err(header_value_refusal())
    } else {
        header_check(pairs.drop_first())
    }
}

/// Checks header pairs in order and reports the first that would be refused.
pub fn check_headers(pairs: &Vec<(String, String)>) -> (r: Result<(), DispatchError>)
    ensures
        r is Ok <==> header_check(pairs_view(pairs@)) is Ok,
        r matches Err(e) ==> e matches DispatchError::MalformedHeader(m) && header_check(
            pairs_view(pairs@),
        ) == Err::<(), Seq<char>>(m@),
{
    let ghost all = pairs_view(pairs@);
    let mut i: usize = 0;
    assert(all.subrange(0, all.len() as int) =~= all);
    while i < pairs.len()
        invariant
            i <= pairs.len(),
            all == pairs_view(pairs@),
            header_check(all) == header_check(all.subrange(i as int, all.len() as int)),
        decreases pairs.len() - i,
    {
        let ghost rest = all.subrange(i as int, all.len() as int);
        assert(rest[0] == (pairs@[i as int].0@, pairs@[i as int].1@));
        match parse_header_name(pairs[i].0.as_str()) {
            Ok(()) => {},
            Err(m) => {
                return Err(DispatchError::MalformedHeader(m));
            },
        }
        match parse_header_value(pairs[i].1.as_str()) {
            Ok(()) => {},
            Err(m) => {
                return Err(DispatchError::MalformedHeader(m));
            },
        }
        assert(rest.drop_first() =~= all.subrange(i + 1, all.len() as int));
        i = i + 1;
    }
    assert(all.subrange(i as int, all.len() as int).len() == 0);
    Ok(())
}

/// The outgoing call a request describes, before any header is parsed.
pub fn plan_call(req: &HttpRequest) -> (call: OutgoingCall)
    ensures
        call_planned(call, *req),
{
    let url = req.url.clone();
    match req.method {
        HttpMethod::GET => {
            let mut headers = req.headers.to_pairs();
            match req.headers.get("Authorization") {
                Some(v) => {
                    let ghost before = headers@;
                    headers.push(("authorization".to_owned(), v.clone()));
                    proof {
                        reveal_strlit("authorization");
                    }
                    assert(pairs_view(headers@) =~= pairs_view(before).push(
                        ("authorization"@, v@),
                    ));
                },
                None => {},
            }
            OutgoingCall {
                method: HttpMethod::GET,
                url,
                headers,
                query: req.query_params.to_pairs(),
                payload: Payload::Empty,
            }
        },
        HttpMethod::POST => {
            let headers = vec![
                ("content-type".to_owned(), "application/x-www-form-urlencoded".to_owned()),
            ];
            assert(pairs_view(headers@) =~= seq![
                ("content-type"@, "application/x-www-form-urlencoded"@),
            ]);
            let query: Vec<(String, String)> = Vec::new();
            assert(pairs_view(query@) =~= Seq::<PairView>::empty());
            OutgoingCall {
                method: HttpMethod::POST,
                url,
                headers,
                query,
                payload: Payload::Form(req.body.to_pairs()),
            }
        },
        HttpMethod::PUT | HttpMethod::PATCH => OutgoingCall {
            method: req.method,
            url,
            headers: req.query_params.to_pairs(),
            query: req.query_params.to_pairs(),
            payload: Payload::Json(req.body.to_pairs()),
        },
        HttpMethod::DELETE => OutgoingCall {
            method: HttpMethod::DELETE,
            url,
            headers: req.query_params.to_pairs(),
            query: req.query_params.to_pairs(),
            payload: Payload::Empty,
        },
    }
}

/// Parses the user-supplied headers and, when all are accepted, describes the
/// outgoing call; otherwise reports the first refused header.
pub fn prepare_request(req: &HttpRequest) -> (r: Result<OutgoingCall, DispatchError>)
    ensures
        r matches Ok(call) ==> call_planned(call, *req),
        r matches Err(e) ==> e matches DispatchError::MalformedHeader(m) && header_check(
            checked_headers(*req),
        ) == Err::<(), Seq<char>>(m@),
        r is Ok <==> header_check(checked_headers(*req)) is Ok,
{
    let checked = match req.method {
        HttpMethod::GET => req.headers.to_pairs(),
        HttpMethod::POST => Vec::new(),
        _ => req.query_params.to_pairs(),
    };
    assert(pairs_view(checked@) =~= checked_headers(*req));
    match check_headers(&checked) {
        Ok(()) => Ok(plan_call(req)),
        Err(e) => Err(e),
    }
}

/// PUT, PATCH and DELETE send every query parameter both as a header and in
/// the query string.
pub proof fn lemma_query_params_sent_twice(req: HttpRequest, i: int)
    requires
        req.method == HttpMethod::PUT || req.method == HttpMethod::PATCH || req.method
            == HttpMethod::DELETE,
        0 <= i < req.query_params.pairs().len(),
    ensures
        planned_headers(req).contains(req.query_params.pairs()[i]),
        planned_query(req).contains(req.query_params.pairs()[i]),
{
    assert(planned_headers(req)[i] == req.query_params.pairs()[i]);
    assert(planned_query(req)[i] == req.query_params.pairs()[i]);
}

} // verus!
