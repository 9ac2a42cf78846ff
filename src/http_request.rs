use crate::http_method::HttpMethod;
use crate::key_value::KeyValueMap;
use vstd::prelude::*;

verus! {

/// One HTTP request as the user edits it.
#[derive(Debug)]
pub struct HttpRequest {
    pub url: String,
    pub method: HttpMethod,
    pub query_params: KeyValueMap,
    pub headers: KeyValueMap,
    pub body: KeyValueMap,
}

impl HttpRequest {
    /// Both requests hold the same method, URL and entries, in the same order.
    pub open spec fn same_content(&self, other: &HttpRequest) -> bool {
        &&& self.method == other.method
        &&& self.url@ == other.url@
        &&& self.query_params.pairs() == other.query_params.pairs()
        &&& self.headers.pairs() == other.headers.pairs()
        &&& self.body.pairs() == other.body.pairs()
    }

    /// The request a new session starts with: POST, no URL, no entries.
    pub open spec fn is_initial(&self) -> bool {
        &&& self.method == HttpMethod::POST
        &&& self.url@ == Seq::<char>::empty()
        &&& self.query_params@ == Map::<Seq<char>, Seq<char>>::empty()
        &&& self.headers@ == Map::<Seq<char>, Seq<char>>::empty()
        &&& self.body@ == Map::<Seq<char>, Seq<char>>::empty()
        &&& self.query_params.pairs().len() == 0
        &&& self.headers.pairs().len() == 0
        &&& self.body.pairs().len() == 0
    }

    /// An independent deep copy, taken when a request is sent so that later
    /// edits do not reach the request in flight.
    pub fn snapshot(&self) -> (r: HttpRequest)
        ensures
            r.same_content(self),
    {
        HttpRequest {
            url: self.url.clone(),
            method: self.method,
            query_params: self.query_params.snapshot(),
            headers: self.headers.snapshot(),
            body: self.body.snapshot(),
        }
    }
}

impl Clone for HttpRequest {
    /// The same as [`HttpRequest::snapshot`].
    fn clone(&self) -> (r: HttpRequest)
        ensures
            r.same_content(self),
    {
        self.snapshot()
    }
}

impl Default for HttpRequest {
    fn default() -> (r: HttpRequest)
        ensures
            r.is_initial(),
    {
        HttpRequest {
            url: String::new(),
            method: HttpMethod::POST,
            query_params: KeyValueMap::new(),
            headers: KeyValueMap::new(),
            body: KeyValueMap::new(),
        }
    }
}

} // verus!
