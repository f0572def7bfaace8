//! Requests as the library describes them, and the translation of a rule
//! into a request against a base endpoint.

use crate::endpoint::Endpoint;
use crate::error::ClientError;
use crate::operation::{texts, Method, Rule, RuleView};
use crate::pairs::Pair;
use crate::session::SessionToken;
use crate::trusted::{encode_form, form_urlencoded, joined_url};
use vstd::prelude::*;
use vstd::string::StringExecFns;

verus! {

/// The content type of every body that this library writes.
pub open spec fn form_content_type() -> Seq<char> {
    "application/x-www-form-urlencoded"@
}

/// One HTTP request, ready to be sent.
#[derive(Debug, PartialEq, Eq)]
pub struct HttpRequest {
    pub method: Method,
    /// The absolute URL of the request.
    pub url: String,
    /// The form-encoded body, where the request has one.
    pub body: Option<String>,
    /// The session in which the request is made, to be sent as its cookies.
    pub cookie: Option<SessionToken>,
}

/// A request with its texts as character sequences.
pub struct RequestView {
    pub method: Method,
    pub url: Seq<char>,
    pub body: Option<Seq<char>>,
    pub cookie: Option<Seq<Pair>>,
}

impl RequestView {
    /// This request, made in the session `token`.
    pub open spec fn with_cookie(self, token: Seq<Pair>) -> RequestView {
        RequestView { cookie: Some(token), ..self }
    }
}

impl View for HttpRequest {
    type V = RequestView;

    open spec fn view(&self) -> RequestView {
        RequestView {
            method: self.method,
            url: self.url@,
            body: match self.body {
                Some(b) => Some(b@),
                None => None,
            },
            cookie: match self.cookie {
                Some(t) => Some(t@),
                None => None,
            },
        }
    }
}

/// The URL that `route` leads to from `base`: each reference is joined onto
/// the URL reached so far. `None` as soon as one join fails.
pub open spec fn resolve_spec(base: Seq<char>, route: Seq<Seq<char>>) -> Option<Seq<char>>
    decreases route.len(),
{
    if route.len() == 0 {
        Some(base)
    } else {
        match joined_url(base, route[0]) {
            Some(next) => resolve_spec(next, route.drop_first()),
            None => None,
        }
    }
}

/// The body of a request with the given form fields.
pub open spec fn body_spec(fields: Option<Seq<Pair>>) -> Option<Seq<char>> {
    match fields {
        Some(f) => Some(form_urlencoded(f)),
        None => None,
    }
}

/// The request that `rule` yields against `base`, before any session is
/// attached. `None` where the route does not lead to a URL.
pub open spec fn request_spec(base: Seq<char>, rule: RuleView) -> Option<RequestView> {
    match resolve_spec(base, rule.route) {
        Some(url) => Some(
            RequestView { method: rule.method, url, body: body_spec(rule.fields), cookie: None },
        ),
        None => None,
    }
}

/// Follows `route` from `base`. `None` exactly where a join fails.
pub fn resolve(base: &Endpoint, route: &Vec<String>) -> (r: Option<Endpoint>)
    ensures
        match r {
            Some(e) => resolve_spec(base@, texts(route@)) == Some(e@),
            None => resolve_spec(base@, texts(route@)) is None,
        },
{
    let ghost all = texts(route@);
    let mut at = base.clone();
    let mut i: usize = 0;
    assert(all.skip(0) =~= all);
    while i < route.len()
        invariant
            i <= route.len(),
            all == texts(route@),
            resolve_spec(base@, all) == resolve_spec(at@, all.skip(i as int)),
        decreases route.len() - i,
    {
        assert(all.skip(i as int).drop_first() =~= all.skip(i + 1));
        assert(all.skip(i as int)[0] == route[i as int]@);
        match at.join(route[i].as_str()) {
            Some(next) => {
                at = next;
            },
            None => {
                return None;
            },
        }
        i += 1;
    }
    Some(at)
}

impl HttpRequest {
    /// Puts a request together from a method, the URL that the route led to
    /// and the encoded body. Fails exactly where there is no URL.
    pub fn assemble(method: Method, url: Option<Endpoint>, body: Option<String>) -> (r: Result<
        HttpRequest,
        ClientError,
    >)
        ensures
            match (r, url) {
                (Ok(request), Some(target)) => request@ == (RequestView {
                    method,
                    url: target@,
                    body: match body {
                        Some(b) => Some(b@),
                        None => None,
                    },
                    cookie: None,
                }),
                (Err(e), None) => e == ClientError::Configuration,
                _ => false,
            },
    {
        match url {
            Some(target) => Ok(
                HttpRequest { method, url: String::from_str(target.as_str()), body, cookie: None },
            ),
            None => Err(ClientError::Configuration),
        }
    }

    /// Translates `rule` into a request against `base`. Fails exactly where
    /// the route does not lead to a URL.
    pub fn translate(base: &Endpoint, rule: &Rule) -> (r: Result<HttpRequest, ClientError>)
        ensures
            match r {
                Ok(request) => request_spec(base@, rule@) == Some(request@),
                Err(e) => e == ClientError::Configuration && request_spec(base@, rule@) is None,
            },
    {
        let url = resolve(base, &rule.route);
        let body = match &rule.fields {
            Some(fields) => Some(encode_form(fields)),
            None => None,
        };
        HttpRequest::assemble(rule.method, url, body)
    }

    /// This request, made in the session `token`.
    pub fn with_cookie(self, token: SessionToken) -> (r: HttpRequest)
        ensures
            r@ == self@.with_cookie(token@),
    {
        HttpRequest { method: self.method, url: self.url, body: self.body, cookie: Some(token) }
    }

    /// The value of the request's `Content-Type` header: that of a form,
    /// exactly where the request has a body.
    pub fn content_type(&self) -> (r: Option<&'static str>)
        ensures
            match r {
                Some(t) => self.body is Some && t@ == form_content_type(),
                None => self.body is None,
            },
    {
        match self.body {
            Some(_) => Some("application/x-www-form-urlencoded"),
            None => None,
        }
    }
}

} // verus!
