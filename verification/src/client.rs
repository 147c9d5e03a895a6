//! The WebDAV client: one method for each operation, each of which puts
//! together the one request that the operation stands for.
use vstd::prelude::*;
use vstd::string::StrSliceExecFns;
use vstd::utf8::{encode_utf8, encode_utf8_decode_utf8};
use crate::error::Error;
use crate::request::{form_view, Body, BodyView, Header, HeaderView, Request, RequestView};
use crate::syntax::{
    is_header_name, is_header_value, is_method, lemma_header_value_utf8,
    lemma_lowercase_idempotent, lemma_lowercase_utf8, lemma_token_utf8, lowercase,
};
use crate::validate::{
    header_name_from_bytes, header_value_from_bytes, method_from_bytes, parse_url, parsed_url,
};

verus! {

/// The body of every `PROPFIND` request: it asks for all properties.
pub const PROPFIND_ALLPROP: &'static str =
    "<?xml version=\"1.0\" encoding=\"utf-8\"?><D:propfind xmlns:D=\"DAV:\"><D:allprop/></D:propfind>";

/// A username and a password, fixed when the client is made.
#[derive(Debug)]
pub struct Client {
    username: String,
    password: String,
}

/// What a [`Client`] stands for.
pub struct Credentials {
    pub username: Seq<char>,
    pub password: Seq<char>,
}

impl View for Client {
    type V = Credentials;

    closed spec fn view(&self) -> Credentials {
        Credentials { username: self.username@, password: self.password@ }
    }
}

/// The request with this verb for this URL that carries `who`'s credentials
/// and nothing else.
pub open spec fn bare_request(who: Credentials, method: Seq<char>, url: Seq<char>) -> RequestView {
    RequestView {
        method,
        url,
        username: who.username,
        password: who.password,
        headers: Seq::empty(),
        body: BodyView::Empty,
    }
}

/// The header with this name, in lower case, and the UTF-8 bytes of this value.
pub open spec fn header_of(name: Seq<char>, value: Seq<char>) -> HeaderView {
    HeaderView { name: lowercase(name), value: encode_utf8(value) }
}

/// The request that `get` stands for.
pub open spec fn get_request(who: Credentials, url: Seq<char>) -> RequestView {
    bare_request(who, "GET"@, url)
}

/// The request that `put` stands for: the bytes go up as an octet stream.
pub open spec fn put_request(who: Credentials, url: Seq<char>, body: Seq<u8>) -> RequestView {
    RequestView {
        headers: seq![
            HeaderView {
                name: "content-type"@,
                value: encode_utf8("application/octet-stream"@),
            },
        ],
        body: BodyView::Bytes(body),
        ..bare_request(who, "PUT"@, url)
    }
}

/// The request that `delete` stands for.
pub open spec fn delete_request(who: Credentials, url: Seq<char>) -> RequestView {
    bare_request(who, "DELETE"@, url)
}

/// The request that `unzip` stands for: a form with the field `method=UNZIP`.
pub open spec fn unzip_request(who: Credentials, url: Seq<char>) -> RequestView {
    RequestView {
        body: BodyView::Form(seq![("method"@, "UNZIP"@)]),
        ..bare_request(who, "POST"@, url)
    }
}

/// The request that `mkcol` stands for.
pub open spec fn mkcol_request(who: Credentials, url: Seq<char>) -> RequestView {
    bare_request(who, "MKCOL"@, url)
}

/// The request that `mv` stands for: the destination goes as it is into the
/// `destination` header.
pub open spec fn mv_request(who: Credentials, url: Seq<char>, to: Seq<char>) -> RequestView {
    RequestView {
        headers: seq![HeaderView { name: "destination"@, value: encode_utf8(to) }],
        ..bare_request(who, "MOVE"@, url)
    }
}

/// The request that `list` stands for: the depth goes as it is into the
/// `depth` header, and the body asks for all properties.
pub open spec fn list_request(who: Credentials, url: Seq<char>, depth: Seq<char>) -> RequestView {
    RequestView {
        headers: seq![HeaderView { name: "depth"@, value: encode_utf8(depth) }],
        body: BodyView::Bytes(encode_utf8(PROPFIND_ALLPROP@)),
        ..bare_request(who, "PROPFIND"@, url)
    }
}

/// Every request of the seven operations carries the credentials of the
/// client that it comes from, unchanged.
pub proof fn lemma_requests_carry_credentials(
    who: Credentials,
    url: Seq<char>,
    body: Seq<u8>,
    to: Seq<char>,
    depth: Seq<char>,
)
    ensures
        get_request(who, url).username == who.username,
        get_request(who, url).password == who.password,
        put_request(who, url, body).username == who.username,
        put_request(who, url, body).password == who.password,
        delete_request(who, url).username == who.username,
        delete_request(who, url).password == who.password,
        unzip_request(who, url).username == who.username,
        unzip_request(who, url).password == who.password,
        mkcol_request(who, url).username == who.username,
        mkcol_request(who, url).password == who.password,
        mv_request(who, url, to).username == who.username,
        mv_request(who, url, to).password == who.password,
        list_request(who, url, depth).username == who.username,
        list_request(who, url, depth).password == who.password,
{
}

/// Every request of the seven operations is well-formed, whatever the
/// credentials, the URL and the body, as long as the destination and the
/// depth may stand in a header value.
pub proof fn lemma_requests_well_formed(
    who: Credentials,
    url: Seq<char>,
    body: Seq<u8>,
    to: Seq<char>,
    depth: Seq<char>,
)
    requires
        is_header_value(to),
        is_header_value(depth),
    ensures
        get_request(who, url).wf(),
        put_request(who, url, body).wf(),
        delete_request(who, url).wf(),
        unzip_request(who, url).wf(),
        mkcol_request(who, url).wf(),
        mv_request(who, url, to).wf(),
        list_request(who, url, depth).wf(),
{
    reveal_strlit("GET");
    reveal_strlit("PUT");
    reveal_strlit("DELETE");
    reveal_strlit("POST");
    reveal_strlit("MKCOL");
    reveal_strlit("MOVE");
    reveal_strlit("PROPFIND");
    reveal_strlit("content-type");
    reveal_strlit("destination");
    reveal_strlit("depth");
    reveal_strlit("application/octet-stream");
    lemma_header_value_utf8("application/octet-stream"@);
    lemma_header_value_utf8(to);
    lemma_header_value_utf8(depth);
    assert(lowercase("content-type"@) =~= "content-type"@);
    assert(lowercase("destination"@) =~= "destination"@);
    assert(lowercase("depth"@) =~= "depth"@);
}

impl Client {
    /// A client that signs every request with `username` and `password`.
    /// Any text will do for either: what HTTP Basic authentication makes of
    /// it is the transport's affair.
    pub fn init(username: &str, password: &str) -> (client: Client)
        ensures
            client@ == (Credentials { username: username@, password: password@ }),
    {
        Client { username: username.to_owned(), password: password.to_owned() }
    }

    /// The request with the verb `method` for the URL `url` that carries this
    /// client's credentials, no further header and no body.
    pub fn request(&self, method: String, url: String) -> (request: Request)
        ensures
            request@ == bare_request(self@, method@, url@),
    {
        let request = Request {
            method,
            url,
            username: self.username.clone(),
            password: self.password.clone(),
            headers: Vec::new(),
            body: Body::Empty,
        };
        assert(request@.headers =~= Seq::empty());
        request
    }

    /// Starts a request: checks the verb, reads `path` as an absolute URL and
    /// attaches the credentials. A bad verb is reported before a bad URL.
    pub fn start_request(&self, method: &str, path: &str) -> (r: Result<Request, Error>)
        ensures
            match r {
                Ok(request) => is_method(method@) && parsed_url(path@) == Some(request@.url)
                    && request@ == bare_request(self@, method@, request@.url),
                Err(Error::Method(_)) => !is_method(method@),
                Err(Error::Url(_)) => is_method(method@) && parsed_url(path@) is None,
                Err(_) => false,
            },
    {
        proof {
            lemma_token_utf8(method@);
        }
        let verb = match method_from_bytes(method.as_bytes()) {
            Ok(verb) => verb,
            Err(e) => {
                return Err(Error::Method(e));
            },
        };
        proof {
            encode_utf8_decode_utf8(verb@);
            encode_utf8_decode_utf8(method@);
        }
        let url = match parse_url(path) {
            Ok(url) => url,
            Err(e) => {
                return Err(Error::Url(e));
            },
        };
        Ok(self.request(verb, url))
    }

    /// The header `name: value`. The name is kept in lower case, the value as
    /// its UTF-8 bytes. A bad name is reported before a bad value.
    pub fn custom_header(&self, name: &str, value: &str) -> (r: Result<Header, Error>)
        ensures
            match r {
                Ok(header) => is_header_name(name@) && is_header_value(value@) && header@
                    == header_of(name@, value@) && header@.wf(),
                Err(Error::HeaderName(_)) => !is_header_name(name@),
                Err(Error::HeaderValue(_)) => is_header_name(name@) && !is_header_value(value@),
                Err(_) => false,
            },
    {
        proof {
            lemma_token_utf8(name@);
            lemma_header_value_utf8(value@);
        }
        let name_text = match header_name_from_bytes(name.as_bytes()) {
            Ok(name_text) => name_text,
            Err(e) => {
                return Err(Error::HeaderName(e));
            },
        };
        proof {
            lemma_lowercase_utf8(name@);
            encode_utf8_decode_utf8(name_text@);
            encode_utf8_decode_utf8(lowercase(name@));
            lemma_lowercase_idempotent(name@);
        }
        let value_bytes = match header_value_from_bytes(value.as_bytes()) {
            Ok(value_bytes) => value_bytes,
            Err(e) => {
                return Err(Error::HeaderValue(e));
            },
        };
        Ok(Header { name: name_text, value: value_bytes })
    }

    /// The form with the one field `key=value`.
    pub fn form_params(&self, key: &str, value: &str) -> (fields: Vec<(String, String)>)
        ensures
            form_view(fields@) == seq![(key@, value@)],
    {
        let mut fields: Vec<(String, String)> = Vec::new();
        fields.push((key.to_owned(), value.to_owned()));
        assert(form_view(fields@) =~= seq![(key@, value@)]);
        fields
    }

    /// Get a file. `path` is the absolute URL of the file on the server.
    pub fn get(&self, path: &str) -> (r: Result<Request, Error>)
        ensures
            match r {
                Ok(request) => parsed_url(path@) == Some(request@.url) && request@ == get_request(
                    self@,
                    request@.url,
                ) && request@.wf(),
                Err(Error::Url(_)) => parsed_url(path@) is None,
                Err(_) => false,
            },
    {
        proof {
            reveal_strlit("GET");
        }
        self.start_request("GET", path)
    }

    /// Upload `body` to `path`, the absolute URL of the file on the server;
    /// what is there is overwritten.
    pub fn put(&self, body: Vec<u8>, path: &str) -> (r: Result<Request, Error>)
        ensures
            match r {
                Ok(request) => parsed_url(path@) == Some(request@.url) && request@ == put_request(
                    self@,
                    request@.url,
                    body@,
                ) && request@.wf(),
                Err(Error::Url(_)) => parsed_url(path@) is None,
                Err(_) => false,
            },
    {
        proof {
            reveal_strlit("PUT");
            reveal_strlit("content-type");
            reveal_strlit("application/octet-stream");
        }
        let mut request = match self.start_request("PUT", path) {
            Ok(request) => request,
            Err(e) => {
                return Err(e);
            },
        };
        let header = match self.custom_header("content-type", "application/octet-stream") {
            Ok(header) => header,
            Err(e) => {
                return Err(e);
            },
        };
        assert(header@.name =~= "content-type"@);
        request.headers.push(header);
        request.body = Body::Bytes(body);
        assert(request@.headers =~= put_request(self@, request@.url, body@).headers);
        Ok(request)
    }

    /// Delete the collection, file or archive at `path`, its absolute URL on
    /// the server.
    pub fn delete(&self, path: &str) -> (r: Result<Request, Error>)
        ensures
            match r {
                Ok(request) => parsed_url(path@) == Some(request@.url) && request@
                    == delete_request(self@, request@.url) && request@.wf(),
                Err(Error::Url(_)) => parsed_url(path@) is None,
                Err(_) => false,
            },
    {
        proof {
            reveal_strlit("DELETE");
        }
        self.start_request("DELETE", path)
    }

    /// Unpack the archive at `path`, its absolute URL on the server. What the
    /// server makes of this is its own affair.
    pub fn unzip(&self, path: &str) -> (r: Result<Request, Error>)
        ensures
            match r {
                Ok(request) => parsed_url(path@) == Some(request@.url) && request@
                    == unzip_request(self@, request@.url) && request@.wf(),
                Err(Error::Url(_)) => parsed_url(path@) is None,
                Err(_) => false,
            },
    {
        proof {
            reveal_strlit("POST");
        }
        let mut request = match self.start_request("POST", path) {
            Ok(request) => request,
            Err(e) => {
                return Err(e);
            },
        };
        request.body = Body::Form(self.form_params("method", "UNZIP"));
        Ok(request)
    }

    /// Create a collection at `path`, its absolute URL on the server.
    pub fn mkcol(&self, path: &str) -> (r: Result<Request, Error>)
        ensures
            match r {
                Ok(request) => parsed_url(path@) == Some(request@.url) && request@
                    == mkcol_request(self@, request@.url) && request@.wf(),
                Err(Error::Url(_)) => parsed_url(path@) is None,
                Err(_) => false,
            },
    {
        proof {
            reveal_strlit("MKCOL");
        }
        self.start_request("MKCOL", path)
    }

    /// Rename or move what is at `from`, its absolute URL on the server, to
    /// `to`. A bad URL is reported before a bad destination.
    pub fn mv(&self, from: &str, to: &str) -> (r: Result<Request, Error>)
        ensures
            match r {
                Ok(request) => parsed_url(from@) == Some(request@.url) && is_header_value(to@)
                    && request@ == mv_request(self@, request@.url, to@) && request@.wf(),
                Err(Error::Url(_)) => parsed_url(from@) is None,
                Err(Error::HeaderValue(_)) => parsed_url(from@) is Some && !is_header_value(to@),
                Err(_) => false,
            },
    {
        proof {
            reveal_strlit("MOVE");
            reveal_strlit("destination");
        }
        let mut request = match self.start_request("MOVE", from) {
            Ok(request) => request,
            Err(e) => {
                return Err(e);
            },
        };
        let header = match self.custom_header("destination", to) {
            Ok(header) => header,
            Err(e) => {
                return Err(e);
            },
        };
        assert(header@.name =~= "destination"@);
        request.headers.push(header);
        assert(request@.headers =~= mv_request(self@, request@.url, to@).headers);
        Ok(request)
    }

    /// List what is at `path`, its absolute URL on the server. `depth` goes to
    /// the server as it is: "0" for the resource alone, "1" for it and its
    /// children, "infinity" for all below it. A bad URL is reported before a
    /// bad depth.
    pub fn list(&self, path: &str, depth: &str) -> (r: Result<Request, Error>)
        ensures
            match r {
                Ok(request) => parsed_url(path@) == Some(request@.url) && is_header_value(depth@)
                    && request@ == list_request(self@, request@.url, depth@) && request@.wf(),
                Err(Error::Url(_)) => parsed_url(path@) is None,
                Err(Error::HeaderValue(_)) => parsed_url(path@) is Some && !is_header_value(
                    depth@,
                ),
                Err(_) => false,
            },
    {
        proof {
            reveal_strlit("PROPFIND");
            reveal_strlit("depth");
        }
        let mut request = match self.start_request("PROPFIND", path) {
            Ok(request) => request,
            Err(e) => {
                return Err(e);
            },
        };
        let header = match self.custom_header("depth", depth) {
            Ok(header) => header,
            Err(e) => {
                return Err(e);
            },
        };
        assert(header@.name =~= "depth"@);
        request.headers.push(header);
        request.body = Body::Bytes(PROPFIND_ALLPROP.as_bytes_vec());
        assert(request@.headers =~= list_request(self@, request@.url, depth@).headers);
        Ok(request)
    }
}

} // verus!
