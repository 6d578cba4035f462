//! Plain descriptions of one HTTP exchange: the request to send and the reply that came back.
//!
//! Nothing here touches the network. A caller sends a [`Request`] with whatever client it
//! has and hands the status line and body back as a [`Reply`].

use vstd::prelude::*;

verus! {

/// The HTTP methods the Web API operations use.
#[derive(Clone, Copy, Debug, PartialEq, Eq, Structural)]
pub enum Method {
    Get,
    Put,
    Post,
}

/// How a request authenticates.
#[derive(Debug, Clone, PartialEq, Eq)]
pub enum Auth {
    /// `Authorization: Bearer <token>`.
    Bearer(String),
    /// HTTP basic authentication.
    Basic { user: String, password: String },
}

/// Mathematical model of [`Auth`].
pub enum AuthView {
    Bearer(Seq<char>),
    Basic { user: Seq<char>, password: Seq<char> },
}

impl DeepView for Auth {
    type V = AuthView;

    open spec fn deep_view(&self) -> AuthView {
        match self {
            Auth::Bearer(token) => AuthView::Bearer(token@),
            Auth::Basic { user, password } => AuthView::Basic { user: user@, password: password@ },
        }
    }
}

/// What a request carries as its body.
#[derive(Debug, Clone, PartialEq, Eq)]
pub enum Body {
    /// No body at all.
    Empty,
    /// JSON text, sent as `application/json`.
    Json(String),
    /// Name/value pairs, sent URL-encoded as a form.
    Form(Vec<(String, String)>),
}

/// Mathematical model of [`Body`].
pub enum BodyView {
    Empty,
    Json(Seq<char>),
    Form(Seq<(Seq<char>, Seq<char>)>),
}

impl DeepView for Body {
    type V = BodyView;

    open spec fn deep_view(&self) -> BodyView {
        match self {
            Body::Empty => BodyView::Empty,
            Body::Json(text) => BodyView::Json(text@),
            Body::Form(pairs) => BodyView::Form(pairs.deep_view()),
        }
    }
}

/// One request, ready to be sent.
#[derive(Debug, Clone, PartialEq, Eq)]
pub struct Request {
    pub method: Method,
    pub url: String,
    pub auth: Auth,
    /// Query parameters in the order they are appended to the URL, not yet encoded.
    pub query: Vec<(String, String)>,
    pub body: Body,
}

/// Mathematical model of [`Request`].
pub struct RequestView {
    pub method: Method,
    pub url: Seq<char>,
    pub auth: AuthView,
    pub query: Seq<(Seq<char>, Seq<char>)>,
    pub body: BodyView,
}

impl DeepView for Request {
    type V = RequestView;

    open spec fn deep_view(&self) -> RequestView {
        RequestView {
            method: self.method,
            url: self.url@,
            auth: self.auth.deep_view(),
            query: self.query.deep_view(),
            body: self.body.deep_view(),
        }
    }
}

impl Request {
    /// A request with bearer authentication, no query parameters and no body.
    pub fn new(method: Method, url: &str, token: &str) -> (request: Request)
        ensures
            request.deep_view() == (RequestView {
                method,
                url: url@,
                auth: AuthView::Bearer(token@),
                query: Seq::empty(),
                body: BodyView::Empty,
            }),
    {
        let request = Request {
            method,
            url: url.to_owned(),
            auth: Auth::Bearer(token.to_owned()),
            query: Vec::new(),
            body: Body::Empty,
        };
        assert(request.query.deep_view() =~= Seq::empty());
        request
    }

    /// The same request with one more query parameter, after those already there.
    pub fn param(self, name: &str, value: &str) -> (request: Request)
        ensures
            request.deep_view() == (RequestView {
                query: self.deep_view().query.push((name@, value@)),
                ..self.deep_view()
            }),
    {
        let mut request = self;
        let ghost before = request.query.deep_view();
        request.query.push((name.to_owned(), value.to_owned()));
        assert(request.query.deep_view() =~= before.push((name@, value@)));
        request
    }

    /// The same request carrying `text` as its JSON body.
    pub fn json(self, text: String) -> (request: Request)
        ensures
            request.deep_view() == (RequestView {
                body: BodyView::Json(text@),
                ..self.deep_view()
            }),
    {
        let mut request = self;
        request.body = Body::Json(text);
        request
    }
}

/// What came back for a request: the status code and the body as text.
#[derive(Debug, Clone, PartialEq, Eq)]
pub struct Reply {
    pub status: u16,
    pub body: String,
}

/// Whether an HTTP status code lies in the success class, 200 to 299.
pub open spec fn status_is_success(status: u16) -> bool {
    200 <= status < 300
}

/// Tells whether `status` is a success status.
pub fn is_success(status: u16) -> (ok: bool)
    ensures
        ok == status_is_success(status),
{
    200 <= status && status < 300
}

} // verus!
