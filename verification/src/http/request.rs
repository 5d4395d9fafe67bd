//! A request as the endpoint methods describe it, and its assembly into what
//! the transport sends: an address, headers and a body.

use crate::http::multipart::{Multipart, Part};
use crate::http::params::{params_slice, query_pairs, QueryParams};
use crate::http::routing::{Root, Route};
use vstd::prelude::*;
use vstd::string::{StrSliceExecFns, StringExecFns};

verus! {

/// What this library calls itself towards the server.
pub const USER_AGENT: &'static str = "DiscordBot (https://github.com/serenity-rs/serenity, 0.1.0)";

/// The HTTP methods that the API uses.
#[derive(Clone, Copy, Debug, PartialEq, Eq, Structural, Hash)]
pub enum LightMethod {
    Delete,
    Get,
    Patch,
    Post,
    Put,
}

impl LightMethod {
    /// The name of the method as it is written in a request.
    pub open spec fn text(self) -> Seq<char> {
        match self {
            LightMethod::Delete => "DELETE"@,
            LightMethod::Get => "GET"@,
            LightMethod::Patch => "PATCH"@,
            LightMethod::Post => "POST"@,
            LightMethod::Put => "PUT"@,
        }
    }

    /// The name of the method as it is written in a request.
    pub fn name(self) -> (s: &'static str)
        ensures
            s@ == self.text(),
    {
        match self {
            LightMethod::Delete => "DELETE",
            LightMethod::Get => "GET",
            LightMethod::Patch => "PATCH",
            LightMethod::Post => "POST",
            LightMethod::Put => "PUT",
        }
    }
}

/// A header of a request.
#[derive(Clone, Debug)]
pub struct RequestHeader {
    pub name: &'static str,
    pub value: String,
}

/// The headers of a request as pairs of the text of a name and the text of a
/// value.
pub open spec fn header_pairs(headers: Seq<RequestHeader>) -> Seq<(Seq<char>, Seq<char>)> {
    Seq::new(headers.len(), |i: int| (headers[i].name@, headers[i].value@))
}

/// A request to an endpoint, before anything of the client is added to it.
///
/// A request carries a JSON body or a multipart body or neither, never both.
#[derive(Clone, Debug)]
pub struct Request<'a> {
    /// The JSON body.
    pub body: Option<Vec<u8>>,
    /// The multipart body.
    pub multipart: Option<Multipart>,
    /// Headers beyond those that every request gets: the audit log reason.
    pub headers: Option<Vec<RequestHeader>>,
    pub method: LightMethod,
    pub route: Route<'a>,
    /// The parameters of the query.
    pub params: Option<QueryParams>,
}

/// A text without the slashes at its end.
pub open spec fn without_trailing_slashes(s: Seq<char>) -> Seq<char>
    decreases s.len(),
{
    if s.len() > 0 && s.last() == '/' {
        without_trailing_slashes(s.drop_last())
    } else {
        s
    }
}

/// The scheme and host that a request goes to: the proxy, without slashes at
/// its end, for a route of the API when there is a proxy, else the route's
/// own server. The status page is never reached through the proxy.
pub open spec fn base_of(root: Root, proxy: Option<Seq<char>>) -> Seq<char> {
    match (root, proxy) {
        (Root::Api, Some(p)) => without_trailing_slashes(p),
        _ => root.host(),
    }
}

/// An address with query parameters written behind it, each as `&`, its
/// name, `=` and its value.
pub open spec fn with_query(address: Seq<char>, pairs: Seq<(Seq<char>, Seq<char>)>) -> Seq<char>
    decreases pairs.len(),
{
    if pairs.len() == 0 {
        address
    } else {
        with_query(address, pairs.drop_last()) + "&"@ + pairs.last().0 + "="@ + pairs.last().1
    }
}

/// The body that the transport sends.
#[derive(Debug)]
pub enum TransportBody {
    /// No body.
    Empty,
    /// A JSON body, sent with the content type `application/json`.
    Json(Vec<u8>),
    /// A multipart form. The transport sets its content type and boundary.
    Form(Vec<Part>),
}

/// A request as the transport sends it.
#[derive(Debug)]
pub struct TransportRequest {
    pub method: LightMethod,
    pub url: String,
    pub headers: Vec<RequestHeader>,
    pub body: TransportBody,
}

/// Cuts the slashes off the end of a text.
pub fn trim_trailing_slashes(s: &str) -> (r: &str)
    ensures
        r@ == without_trailing_slashes(s@),
{
    let mut n: usize = s.unicode_len();
    assert(s@.subrange(0, n as int) =~= s@);
    while n > 0 && s.get_char(n - 1) == '/'
        invariant
            0 <= n <= s@.len(),
            without_trailing_slashes(s@) == without_trailing_slashes(s@.subrange(0, n as int)),
        decreases n,
    {
        proof {
            let cur = s@.subrange(0, n as int);
            assert(cur.last() == s@[n - 1]);
            assert(cur.drop_last() =~= s@.subrange(0, n - 1));
        }
        n -= 1;
    }
    proof {
        assert(s@.subrange(0, s@.len() as int) =~= s@);
        let cur = s@.subrange(0, n as int);
        if n > 0 {
            assert(cur.last() == s@[n - 1]);
        }
    }
    s.substring_char(0, n)
}

impl<'a> Request<'a> {
    /// A request without body, headers or parameters.
    pub fn new(route: Route<'a>, method: LightMethod) -> (r: Self)
        ensures
            r.route == route,
            r.method == method,
            r.body is None,
            r.multipart is None,
            r.headers is None,
            r.params is None,
            r.wf(),
    {
        Request { body: None, multipart: None, headers: None, method, route, params: None }
    }

    /// The invariant of a request: not both a JSON body and a multipart
    /// body.
    pub open spec fn wf(self) -> bool {
        !(self.body is Some && self.multipart is Some)
    }

    /// The parameters of the query as pairs of texts, if the request has
    /// any.
    pub open spec fn query(self) -> Option<Seq<(Seq<char>, Seq<char>)>> {
        match self.params {
            Some(p) => Some(query_pairs(p)),
            None => None,
        }
    }

    /// The extra headers of the request as pairs of texts, if it has any.
    pub open spec fn extra_headers(self) -> Option<Seq<(Seq<char>, Seq<char>)>> {
        match self.headers {
            Some(h) => Some(header_pairs(h@)),
            None => None,
        }
    }

    /// The address that the request goes to: the base, the prefix of the
    /// server, the path of the route, and, if the request has parameters, `?`
    /// and the parameters.
    pub open spec fn address(self, proxy: Option<Seq<char>>) -> Seq<char> {
        let path = base_of(self.route.server(), proxy) + self.route.server().prefix()
            + self.route.tail();
        match self.params {
            Some(p) => with_query(path + "?"@, query_pairs(p)),
            None => path,
        }
    }

    /// The headers that the request is sent with: its own, then the user
    /// agent, then the authorization if the client has a token, then the
    /// content type if the body is JSON.
    pub open spec fn sent_headers(self, token: Option<Seq<char>>) -> Seq<(Seq<char>, Seq<char>)> {
        (match self.headers {
            Some(h) => header_pairs(h@),
            None => Seq::empty(),
        }) + seq![("user-agent"@, USER_AGENT@)] + (match token {
            Some(t) => seq![("authorization"@, t)],
            None => Seq::empty(),
        }) + (if self.body is Some {
            seq![("content-type"@, "application/json"@)]
        } else {
            Seq::empty()
        })
    }

    /// Whether `body` is what the request sends as its body.
    pub open spec fn sends_body(self, body: TransportBody) -> bool {
        match (self.body, self.multipart) {
            (Some(json), _) => body == TransportBody::Json(json),
            (None, Some(multipart)) => body matches TransportBody::Form(parts)
                && multipart.laid_out_as(parts@),
            (None, None) => body is Empty,
        }
    }

    /// Assembles the request for the transport. `token` is the value of the
    /// authorization header, absent for a client without one; `proxy` is the
    /// base to send API requests to in place of the API's own host.
    pub fn build(self, token: Option<&str>, proxy: Option<&str>) -> (t: TransportRequest)
        requires
            self.wf(),
        ensures
            t.method == self.method,
            t.url@ == self.address(
                match proxy {
                    Some(p) => Some(p@),
                    None => None,
                },
            ),
            header_pairs(t.headers@) == self.sent_headers(
                match token {
                    Some(t) => Some(t@),
                    None => None,
                },
            ),
            self.sends_body(t.body),
    {
        let ghost me = self;
        let Request { body, multipart, headers, method, route, params } = self;
        let root = route.root();
        let mut url = match (root, proxy) {
            (Root::Api, Some(p)) => String::from_str(trim_trailing_slashes(p)),
            _ => String::from_str(root.host_text()),
        };
        url.append(root.prefix_text());
        url.append(route.path_tail().as_str());
        if let Some(p) = &params {
            url.append("?");
            let ghost start = url@;
            let pairs = params_slice(p);
            let mut i: usize = 0;
            while i < pairs.len()
                invariant
                    0 <= i <= pairs@.len(),
                    pairs@.len() == query_pairs(*p).len(),
                    forall|k: int|
                        0 <= k < pairs@.len()
                            ==> (#[trigger] pairs@[k]).0@ == query_pairs(*p)[k].0 && pairs@[k].1@
                            == query_pairs(*p)[k].1,
                    url@ == with_query(start, query_pairs(*p).subrange(0, i as int)),
                decreases pairs@.len() - i,
            {
                proof {
                    let next = query_pairs(*p).subrange(0, i + 1);
                    assert(next.drop_last() =~= query_pairs(*p).subrange(0, i as int));
                    assert(next.last() == query_pairs(*p)[i as int]);
                }
                url.append("&");
                url.append(pairs[i].0);
                url.append("=");
                url.append(pairs[i].1.as_str());
                i += 1;
            }
            assert(query_pairs(*p).subrange(0, i as int) =~= query_pairs(*p));
        }
        let mut sent: Vec<RequestHeader> = match headers {
            Some(h) => h,
            None => Vec::new(),
        };
        let ghost own = header_pairs(sent@);
        assert(own =~= match me.headers {
            Some(h) => header_pairs(h@),
            None => Seq::empty(),
        });
        sent.push(RequestHeader { name: "user-agent", value: String::from_str(USER_AGENT) });
        assert(header_pairs(sent@) =~= own + seq![("user-agent"@, USER_AGENT@)]);
        let ghost with_agent = header_pairs(sent@);
        if let Some(t) = token {
            sent.push(RequestHeader { name: "authorization", value: String::from_str(t) });
            assert(header_pairs(sent@) =~= with_agent + seq![("authorization"@, t@)]);
        } else {
            assert(header_pairs(sent@) =~= with_agent + Seq::<(Seq<char>, Seq<char>)>::empty());
        }
        let ghost with_token = header_pairs(sent@);
        let out = match body {
            Some(json) => {
                sent.push(RequestHeader { name: "content-type", value: String::from_str("application/json") });
                assert(header_pairs(sent@)
                    =~= with_token + seq![("content-type"@, "application/json"@)]);
                TransportBody::Json(json)
            },
            None => {
                assert(header_pairs(sent@) =~= with_token + Seq::<(Seq<char>, Seq<char>)>::empty());
                match multipart {
                    Some(m) => TransportBody::Form(m.into_parts()),
                    None => TransportBody::Empty,
                }
            },
        };
        TransportRequest { method, url, headers: sent, body: out }
    }
}

} // verus!
