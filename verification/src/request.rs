//! The head of a request as the engine parsed it, and what the host is told
//! of it: whether a body may follow, and the request's absolute URL.

use crate::error::HttpError;
use crate::headers::{
    first_header, header_text, headers_view, host_name, is_first_named, is_text, none_named,
    same_ignoring_case, text_of, Header, HeaderView,
};
use crate::table::Scheme;
use vstd::prelude::*;
use vstd::string::*;

verus! {

/// The head of one parsed request.
#[derive(Clone, Debug, PartialEq, Eq)]
pub struct RequestHead {
    /// The method, as on the request line.
    pub method: String,
    /// The host of the request target's authority, where the target has one.
    pub host: Option<String>,
    /// Path and query of the request target, where the target has them.
    pub path_and_query: Option<String>,
    /// The headers, in the order in which the engine yields them.
    pub headers: Vec<Header>,
    /// The exact size of the body, where the engine knows it.
    pub body_size: Option<u64>,
}

/// The mathematical value of a request head.
pub struct RequestHeadView {
    pub method: Seq<char>,
    pub host: Option<Seq<char>>,
    pub path_and_query: Option<Seq<char>>,
    pub headers: Seq<HeaderView>,
    pub body_size: Option<u64>,
}

/// The characters of an optional string.
pub open spec fn text_view(text: Option<String>) -> Option<Seq<char>> {
    match text {
        Some(t) => Some(t@),
        None => None,
    }
}

impl View for RequestHead {
    type V = RequestHeadView;

    open spec fn view(&self) -> RequestHeadView {
        RequestHeadView {
            method: self.method@,
            host: text_view(self.host),
            path_and_query: text_view(self.path_and_query),
            headers: headers_view(self.headers@),
            body_size: self.body_size,
        }
    }
}

impl Scheme {
    /// The scheme as it stands in a URL.
    pub open spec fn text(self) -> Seq<char> {
        match self {
            Scheme::Http => "http"@,
            Scheme::Https => "https"@,
        }
    }

    /// The scheme as it stands in a URL.
    pub fn as_str(&self) -> (text: &'static str)
        ensures
            text@ == self.text(),
    {
        match self {
            Scheme::Http => "http",
            Scheme::Https => "https",
        }
    }
}

/// The value of the first header of the given name, in any ASCII case.
pub open spec fn first_value(headers: Seq<HeaderView>, name: Seq<u8>) -> Option<Seq<u8>>
    decreases headers.len(),
{
    if headers.len() == 0 {
        None
    } else if same_ignoring_case(headers[0].name, name) {
        Some(headers[0].value)
    } else {
        first_value(headers.drop_first(), name)
    }
}

/// Where a URL's host comes from.
pub enum HostSource {
    /// The authority of the request target.
    Target(Seq<char>),
    /// The first `Host` header, given by its bytes.
    Header(Seq<u8>),
    /// The address of the connection.
    Address,
}

/// Where the host of a request's URL comes from: the target's authority
/// before the `Host` header, and that before the connection's address.
pub open spec fn host_source(head: RequestHeadView) -> HostSource {
    match head.host {
        Some(host) => HostSource::Target(host),
        None => match first_value(head.headers, host_name()) {
            Some(value) => HostSource::Header(value),
            None => HostSource::Address,
        },
    }
}

/// The host of a request's URL, or nothing where it would come from a
/// `Host` header that is not text.
pub open spec fn url_host(head: RequestHeadView, addr: Seq<char>) -> Option<Seq<char>> {
    match host_source(head) {
        HostSource::Target(host) => Some(host),
        HostSource::Header(value) => if is_text(value) {
            Some(text_of(value))
        } else {
            None
        },
        HostSource::Address => Some(addr),
    }
}

/// Path and query of a request's URL: those of the target, or `/`.
pub open spec fn url_path(head: RequestHeadView) -> Seq<char> {
    match head.path_and_query {
        Some(path) => path,
        None => "/"@,
    }
}

/// The absolute URL of a request: scheme, `://`, host, path and query.
pub open spec fn url_of(scheme: Scheme, head: RequestHeadView, addr: Seq<char>) -> Option<
    Seq<char>,
> {
    match url_host(head, addr) {
        Some(host) => Some(scheme.text() + "://"@ + host + url_path(head)),
        None => None,
    }
}

/// Whether a body may follow the head: its size is unknown or not zero.
pub open spec fn may_have_body(head: RequestHeadView) -> bool {
    match head.body_size {
        Some(size) => size > 0,
        None => true,
    }
}

/// The first header of a name is the one whose value `first_value` gives.
pub proof fn lemma_first_value_found(headers: Seq<HeaderView>, name: Seq<u8>, i: int)
    requires
        is_first_named(headers, name, i),
    ensures
        first_value(headers, name) == Some(headers[i].value),
    decreases i,
{
    if i > 0 {
        let rest = headers.drop_first();
        assert(headers[0] == headers[0]);
        assert forall|j: int| 0 <= j < i - 1 implies !same_ignoring_case(
            (#[trigger] rest[j]).name,
            name,
        ) by {
            assert(rest[j] == headers[j + 1]);
        }
        lemma_first_value_found(rest, name, i - 1);
    }
}

/// Where no header has the name, `first_value` gives nothing.
pub proof fn lemma_first_value_absent(headers: Seq<HeaderView>, name: Seq<u8>)
    requires
        none_named(headers, name),
    ensures
        first_value(headers, name) is None,
    decreases headers.len(),
{
    if headers.len() > 0 {
        let rest = headers.drop_first();
        assert(headers[0] == headers[0]);
        assert forall|j: int| 0 <= j < rest.len() implies !same_ignoring_case(
            (#[trigger] rest[j]).name,
            name,
        ) by {
            assert(rest[j] == headers[j + 1]);
        }
        lemma_first_value_absent(rest, name);
    }
}

impl RequestHead {
    /// Whether a body may follow the head.
    pub fn has_body(&self) -> (yes: bool)
        ensures
            yes == may_have_body(self@),
    {
        match self.body_size {
            Some(size) => size > 0,
            None => true,
        }
    }

    /// The host of the request's URL on a connection with the given address.
    /// Fails where the host would come from a `Host` header that is not text.
    pub fn url_host(&self, addr: &str) -> (host: Result<String, HttpError>)
        ensures
            match url_host(self@, addr@) {
                Some(text) => host matches Ok(h) && h@ == text,
                None => host == Err::<String, HttpError>(HttpError::HostNotText),
            },
    {
        match &self.host {
            Some(host) => Ok(host.clone()),
            None => {
                let name: [u8; 4] = [0x68, 0x6f, 0x73, 0x74];
                assert(name@ =~= host_name());
                match first_header(&self.headers, name.as_slice()) {
                    Some(i) => {
                        proof {
                            lemma_first_value_found(self@.headers, host_name(), i as int);
                        }
                        match header_text(self.headers[i].value.as_slice()) {
                            Some(text) => Ok(text),
                            None => Err(HttpError::HostNotText),
                        }
                    },
                    None => {
                        proof {
                            lemma_first_value_absent(self@.headers, host_name());
                        }
                        Ok(String::from_str(addr))
                    },
                }
            },
        }
    }
}

/// Reconstructs the absolute URL of a request that came in on a connection
/// with the given scheme and address: `{scheme}://{host}{path-and-query}`.
pub fn request_url(scheme: Scheme, head: &RequestHead, addr: &str) -> (url: Result<
    String,
    HttpError,
>)
    ensures
        match url_of(scheme, head@, addr@) {
            Some(text) => url matches Ok(u) && u@ == text,
            None => url == Err::<String, HttpError>(HttpError::HostNotText),
        },
{
    match head.url_host(addr) {
        Ok(host) => {
            let mut url = String::from_str(scheme.as_str());
            url.append("://");
            url.append(host.as_str());
            match &head.path_and_query {
                Some(path) => url.append(path.as_str()),
                None => url.append("/"),
            }
            Ok(url)
        },
        Err(e) => Err(e),
    }
}

/// A reconstructed URL is absolute: it begins with `http://` or `https://`,
/// the host follows, and path and query end it, `/` where the request target
/// has none.
pub proof fn lemma_url_is_absolute(scheme: Scheme, head: RequestHeadView, addr: Seq<char>)
    requires
        url_of(scheme, head, addr) is Some,
    ensures
        ({
            let url = url_of(scheme, head, addr)->0;
            let prefix = scheme.text() + "://"@;
            let host = url_host(head, addr)->0;
            &&& prefix == "http://"@ || prefix == "https://"@
            &&& url.len() == prefix.len() + host.len() + url_path(head).len()
            &&& url.subrange(0, prefix.len() as int) == prefix
            &&& url.subrange(prefix.len() as int, (prefix.len() + host.len()) as int) == host
            &&& url.subrange((prefix.len() + host.len()) as int, url.len() as int) == url_path(head)
            &&& head.path_and_query is None ==> url_path(head) == "/"@
        }),
{
    reveal_strlit("http");
    reveal_strlit("https");
    reveal_strlit("://");
    reveal_strlit("http://");
    reveal_strlit("https://");
    let url = url_of(scheme, head, addr)->0;
    let prefix = scheme.text() + "://"@;
    let host = url_host(head, addr)->0;
    assert(prefix =~= "http://"@ || prefix =~= "https://"@);
    assert(url.subrange(0, prefix.len() as int) =~= prefix);
    assert(url.subrange(prefix.len() as int, (prefix.len() + host.len()) as int) =~= host);
    assert(url.subrange((prefix.len() + host.len()) as int, url.len() as int) =~= url_path(head));
}

} // verus!
