//! The client's request builders: a method and an address make a request
//! that carries the client's `User-Agent` and the target's `Host`.
use vstd::prelude::*;
use core::marker::PhantomData;
use crate::download::{Download, Phase};
use crate::error::HttpError;
use crate::message::{
    headers_view, header_value, lemma_put_then_value, utf8, Header, Method, TransferRequest,
};
use crate::url::{host_of, is_secure_scheme, path_of, port_of, scheme_of, Endpoint};

verus! {

/// The `User-Agent` that every request carries.
pub const LIB_USER_AGENT: &'static str = "HTTP Lib / 0.1.0 WD Client";

/// Marks a request that may carry a body.
pub struct Body;

/// Marks a request without a body.
pub struct NoBody;

/// An HTTP client; each request it makes opens a channel of its own.
#[derive(Debug, Default)]
pub struct Client;

/// A request to an endpoint, built step by step.
pub struct ClientRequest<T> {
    url: Endpoint,
    inner: TransferRequest,
    secure: bool,
    _d: PhantomData<T>,
}

/// `c` is a fresh request with `method` to the endpoint that `url` names.
pub open spec fn made_for<T>(c: ClientRequest<T>, url: Seq<char>, method: Method) -> bool {
    &&& c.endpoint_spec().scheme@ == scheme_of(url)
    &&& c.endpoint_spec().host@ == host_of(url)
    &&& Some(c.endpoint_spec().port) == port_of(url)
    &&& c.endpoint_spec().path@ == path_of(url)
    &&& c.request_spec().method == method
    &&& c.request_spec().path@ == path_of(url)
    &&& headers_view(c.request_spec().headers@) == seq![
        ("User-Agent"@, LIB_USER_AGENT@),
        ("Host"@, host_of(url)),
    ]
    &&& c.request_spec().body@.len() == 0
    &&& c.secure_spec() == is_secure_scheme(scheme_of(url))
}

/// The address `url` can be split into an endpoint.
pub open spec fn valid_url(url: Seq<char>) -> bool {
    host_of(url).len() > 0 && port_of(url) is Some
}

impl Client {
    /// A new client.
    pub fn new() -> (r: Client) {
        Client
    }

    fn request<T>(url: &str, method: Method) -> (r: Result<ClientRequest<T>, HttpError>)
        ensures
            r is Ok <==> valid_url(url@),
            r matches Ok(c) ==> made_for(c, url@, method),
            r matches Err(e) ==> (e matches HttpError::InvalidUrl(m) && m@ == url@),
    {
        let e = Endpoint::parse(url)?;
        Ok(ClientRequest::new(e, method))
    }

    /// A POST request to `url`; a malformed address is a `ParseError`.
    pub fn post(&self, url: &str) -> (r: Result<ClientRequest<Body>, HttpError>)
        ensures
            r is Ok <==> valid_url(url@),
            r matches Ok(c) ==> made_for(c, url@, Method::Post),
            r matches Err(e) ==> (e matches HttpError::ParseError(m) && m@ == url@),
    {
        match Self::request(url, Method::Post) {
            Ok(c) => Ok(c),
            Err(_) => Err(HttpError::ParseError(url.to_owned())),
        }
    }

    /// A GET request to `url`.
    pub fn get(&self, url: &str) -> (r: Result<ClientRequest<NoBody>, HttpError>)
        ensures
            r is Ok <==> valid_url(url@),
            r matches Ok(c) ==> made_for(c, url@, Method::Get),
            r matches Err(e) ==> (e matches HttpError::InvalidUrl(m) && m@ == url@),
    {
        Self::request(url, Method::Get)
    }

    /// A HEAD request to `url`.
    pub fn head(&self, url: &str) -> (r: Result<ClientRequest<NoBody>, HttpError>)
        ensures
            r is Ok <==> valid_url(url@),
            r matches Ok(c) ==> made_for(c, url@, Method::Head),
            r matches Err(e) ==> (e matches HttpError::InvalidUrl(m) && m@ == url@),
    {
        Self::request(url, Method::Head)
    }

    /// A PUT request to `url`.
    pub fn put(&self, url: &str) -> (r: Result<ClientRequest<Body>, HttpError>)
        ensures
            r is Ok <==> valid_url(url@),
            r matches Ok(c) ==> made_for(c, url@, Method::Put),
            r matches Err(e) ==> (e matches HttpError::InvalidUrl(m) && m@ == url@),
    {
        Self::request(url, Method::Put)
    }

    /// A CONNECT request to `url`.
    pub fn connect(&self, url: &str) -> (r: Result<ClientRequest<NoBody>, HttpError>)
        ensures
            r is Ok <==> valid_url(url@),
            r matches Ok(c) ==> made_for(c, url@, Method::Connect),
            r matches Err(e) ==> (e matches HttpError::InvalidUrl(m) && m@ == url@),
    {
        Self::request(url, Method::Connect)
    }

    /// A TRACE request to `url`.
    pub fn trace(&self, url: &str) -> (r: Result<ClientRequest<NoBody>, HttpError>)
        ensures
            r is Ok <==> valid_url(url@),
            r matches Ok(c) ==> made_for(c, url@, Method::Trace),
            r matches Err(e) ==> (e matches HttpError::InvalidUrl(m) && m@ == url@),
    {
        Self::request(url, Method::Trace)
    }

    /// A PATCH request to `url`.
    pub fn patch(&self, url: &str) -> (r: Result<ClientRequest<Body>, HttpError>)
        ensures
            r is Ok <==> valid_url(url@),
            r matches Ok(c) ==> made_for(c, url@, Method::Patch),
            r matches Err(e) ==> (e matches HttpError::InvalidUrl(m) && m@ == url@),
    {
        Self::request(url, Method::Patch)
    }

    /// An OPTIONS request to `url`.
    pub fn options(&self, url: &str) -> (r: Result<ClientRequest<NoBody>, HttpError>)
        ensures
            r is Ok <==> valid_url(url@),
            r matches Ok(c) ==> made_for(c, url@, Method::Options),
            r matches Err(e) ==> (e matches HttpError::InvalidUrl(m) && m@ == url@),
    {
        Self::request(url, Method::Options)
    }
}

/// Appends the bytes of `b` to `v`.
fn append_bytes(v: &mut Vec<u8>, b: &[u8])
    ensures
        final(v)@ == old(v)@ + b@,
{
    let mut i: usize = 0;
    while i < b.len()
        invariant
            i <= b@.len(),
            v@ == old(v)@ + b@.subrange(0, i as int),
        decreases b@.len() - i,
    {
        v.push(b[i]);
        i = i + 1;
        assert(v@ =~= old(v)@ + b@.subrange(0, i as int));
    }
    assert(b@.subrange(0, b@.len() as int) =~= b@);
}

/// The body after a form entry `name=value` is added: entries after the
/// first are preceded by `&`.
pub open spec fn form_body(body: Seq<u8>, name: Seq<char>, value: Seq<char>) -> Seq<u8> {
    let entry = utf8(name) + seq![61u8] + utf8(value);
    if body.len() == 0 {
        entry
    } else {
        body + seq![38u8] + entry
    }
}

impl<T> ClientRequest<T> {
    pub closed spec fn endpoint_spec(&self) -> Endpoint {
        self.url
    }

    pub closed spec fn request_spec(&self) -> TransferRequest {
        self.inner
    }

    pub closed spec fn secure_spec(&self) -> bool {
        self.secure
    }

    /// A request with `method` to `url`, carrying `User-Agent` and `Host`.
    pub(crate) fn new(url: Endpoint, method: Method) -> (r: ClientRequest<T>)
        ensures
            r.endpoint_spec() == url,
            r.request_spec().method == method,
            r.request_spec().path@ == url.path@,
            headers_view(r.request_spec().headers@) == seq![
                ("User-Agent"@, LIB_USER_AGENT@),
                ("Host"@, url.host@),
            ],
            r.request_spec().body@.len() == 0,
            r.secure_spec() == is_secure_scheme(url.scheme@),
    {
        let secure = url.is_secure();
        let mut headers: Vec<Header> = Vec::new();
        headers.push(Header { name: "User-Agent".to_owned(), value: LIB_USER_AGENT.to_owned() });
        headers.push(Header { name: "Host".to_owned(), value: url.host.clone() });
        assert(headers_view(headers@) =~= seq![
            ("User-Agent"@, LIB_USER_AGENT@),
            ("Host"@, url.host@),
        ]);
        let inner = TransferRequest {
            method,
            path: url.path.clone(),
            headers,
            body: Vec::new(),
        };
        ClientRequest { url, inner, secure, _d: PhantomData }
    }

    /// The endpoint the request goes to.
    pub fn endpoint(&self) -> (r: &Endpoint)
        ensures
            *r == self.endpoint_spec(),
    {
        &self.url
    }

    /// The request as it stands.
    pub fn request(&self) -> (r: &TransferRequest)
        ensures
            *r == self.request_spec(),
    {
        &self.inner
    }

    /// Whether the request goes over the secure transport.
    pub fn is_secure(&self) -> (r: bool)
        ensures
            r == self.secure_spec(),
    {
        self.secure
    }

    /// Sets the header `key` to `value`; a header of the same name, up to
    /// ASCII case, takes the new value.
    pub fn header(self, key: &str, value: &str) -> (r: Self)
        ensures
            r.endpoint_spec() == self.endpoint_spec(),
            r.secure_spec() == self.secure_spec(),
            r.request_spec().method == self.request_spec().method,
            r.request_spec().path == self.request_spec().path,
            r.request_spec().body == self.request_spec().body,
            exists|v: String|
                v@ == value@ && crate::message::put_spec(
                    self.request_spec().headers@,
                    key@,
                    v,
                    r.request_spec().headers@,
                ),
            header_value(r.request_spec().headers@, utf8(key@)) == Some(value@),
    {
        let mut s = self;
        let v = value.to_owned();
        let ghost before = s.inner.headers@;
        s.inner.put_header(key, v);
        proof {
            lemma_put_then_value(before, key@, v, s.inner.headers@);
        }
        s
    }

    /// Starts a download of the resource: the endpoint, and the state
    /// machine that decides what to send.
    pub fn download_plan(self) -> (r: (Endpoint, bool, Download))
        ensures
            r.0 == self.endpoint_spec(),
            r.1 == self.secure_spec(),
            r.2.wf(),
            r.2.phase_spec() == Phase::Probing,
            r.2.template_spec() == self.request_spec(),
    {
        (self.url, self.secure, Download::new(self.inner))
    }
}

impl ClientRequest<Body> {
    /// Appends `data` to the body.
    pub fn body(self, data: &[u8]) -> (r: Self)
        ensures
            r.endpoint_spec() == self.endpoint_spec(),
            r.secure_spec() == self.secure_spec(),
            r.request_spec().method == self.request_spec().method,
            r.request_spec().path == self.request_spec().path,
            r.request_spec().headers == self.request_spec().headers,
            r.request_spec().body@ == self.request_spec().body@ + data@,
    {
        let mut s = self;
        append_bytes(&mut s.inner.body, data);
        s
    }

    /// Adds the URL-encoded form entry `name=value` to the body and marks
    /// the body as a form.
    pub fn form_data(self, name: &str, value: &str) -> (r: Self)
        ensures
            r.endpoint_spec() == self.endpoint_spec(),
            r.secure_spec() == self.secure_spec(),
            r.request_spec().method == self.request_spec().method,
            r.request_spec().path == self.request_spec().path,
            header_value(r.request_spec().headers@, utf8("Content-Type"@)) == Some(
                "application/x-www-form-urlencoded"@,
            ),
            r.request_spec().body@ == form_body(self.request_spec().body@, name@, value@),
    {
        let mut s = self;
        let ct = "application/x-www-form-urlencoded".to_owned();
        let ghost before = s.inner.headers@;
        s.inner.put_header("Content-Type", ct);
        proof {
            lemma_put_then_value(before, "Content-Type"@, ct, s.inner.headers@);
        }
        if s.inner.body.len() > 0 {
            s.inner.body.push(38u8);
        }
        append_bytes(&mut s.inner.body, name.as_bytes());
        s.inner.body.push(61u8);
        append_bytes(&mut s.inner.body, value.as_bytes());
        assert(s.inner.body@ =~= form_body(self.inner.body@, name@, value@));
        s
    }
}

} // verus!
