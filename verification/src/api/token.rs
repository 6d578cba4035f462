//! Trading the refresh token for fresh tokens at the accounts service.

use crate::config::SpotifyConfig;
use crate::failure::{Failure, FailureView};
use crate::http::{
    is_success, status_is_success, Auth, AuthView, Body, BodyView, Method, Reply, Request,
    RequestView,
};
use crate::json::{json_of_text, Json, JsonView};
use crate::objects::{TokenResponse, TokenResponseView};
use crate::outcome::{outcome_view, record_outcome, settle};
use vstd::prelude::*;

verus! {

/// The request that trades a refresh token for fresh tokens. The client signs it with
/// its id and secret.
pub open spec fn refresh_request(
    client_id: Seq<char>,
    client_secret: Seq<char>,
    refresh_token: Seq<char>,
) -> RequestView {
    RequestView {
        method: Method::Post,
        url: "https://accounts.spotify.com/api/token"@,
        auth: AuthView::Basic { user: client_id, password: client_secret },
        query: Seq::empty(),
        body: BodyView::Form(
            seq![("grant_type"@, "refresh_token"@), ("refresh_token"@, refresh_token)],
        ),
    }
}

/// What a refresh has to show for itself.
#[derive(Debug, Clone, PartialEq, Eq)]
pub enum Refreshed {
    /// The fresh tokens.
    Tokens(TokenResponse),
    /// The accounts service declined; this is what it said, word for word.
    Declined(String),
}

/// Mathematical model of [`Refreshed`].
pub enum RefreshedView {
    Tokens(TokenResponseView),
    Declined(Seq<char>),
}

impl DeepView for Refreshed {
    type V = RefreshedView;

    open spec fn deep_view(&self) -> RefreshedView {
        match self {
            Refreshed::Tokens(tokens) => RefreshedView::Tokens(tokens.deep_view()),
            Refreshed::Declined(body) => RefreshedView::Declined(body@),
        }
    }
}

/// The outcome of a refresh. A success status with a body that holds no tokens is a
/// failure; any other status is no failure of the exchange, and its body is handed on.
pub open spec fn refresh_outcome(
    status: u16,
    body: Seq<char>,
    document: Option<JsonView>,
) -> Result<
    RefreshedView,
    FailureView,
> {
    if status_is_success(status) {
        match record_outcome::<TokenResponse>(status, document) {
            Ok(tokens) => Ok(RefreshedView::Tokens(tokens)),
            Err(failure) => Err(failure),
        }
    } else {
        Ok(RefreshedView::Declined(body))
    }
}

/// The lines that set the environment to fresh tokens.
pub open spec fn token_lines(tokens: TokenResponseView) -> Seq<Seq<char>> {
    seq![
        "SPOTIFY_ACCESS_TOKEN='"@ + tokens.access_token + "'"@,
        "SPOTIFY_REFRESH_TOKEN='"@ + tokens.refresh_token + "'"@,
    ]
}

/// Writes the lines that set the environment to fresh tokens.
pub fn show_tokens(tokens: &TokenResponse) -> (lines: Vec<String>)
    ensures
        lines.deep_view() == token_lines(tokens.deep_view()),
{
    let mut access = String::from_str("SPOTIFY_ACCESS_TOKEN='");
    access.append(tokens.access_token.as_str());
    access.append("'");
    let mut refresh = String::from_str("SPOTIFY_REFRESH_TOKEN='");
    refresh.append(tokens.refresh_token.as_str());
    refresh.append("'");
    let mut lines: Vec<String> = Vec::new();
    lines.push(access);
    lines.push(refresh);
    lines
}

/// Trades the refresh token for fresh tokens.
pub struct RefreshToken {
    client_id: String,
    client_secret: String,
    refresh_token: String,
}

impl RefreshToken {
    /// The id the client is registered under.
    pub closed spec fn client(&self) -> Seq<char> {
        self.client_id@
    }

    /// The secret that goes with the id.
    pub closed spec fn secret(&self) -> Seq<char> {
        self.client_secret@
    }

    /// The refresh token that is traded in.
    pub closed spec fn token(&self) -> Seq<char> {
        self.refresh_token@
    }

    /// Trades in the refresh token that `config` holds, as the client that `config` names.
    pub fn new(config: &SpotifyConfig) -> (operation: Self)
        ensures
            operation.client() == config.client_id@,
            operation.secret() == config.client_secret@,
            operation.token() == config.refresh_token@,
    {
        Self {
            client_id: config.client_id.clone(),
            client_secret: config.client_secret.clone(),
            refresh_token: config.refresh_token.clone(),
        }
    }

    /// What to send.
    pub fn request(&self) -> (request: Request)
        ensures
            request.deep_view() == refresh_request(self.client(), self.secret(), self.token()),
    {
        let mut form: Vec<(String, String)> = Vec::new();
        form.push((String::from_str("grant_type"), String::from_str("refresh_token")));
        form.push((String::from_str("refresh_token"), self.refresh_token.clone()));
        let request = Request {
            method: Method::Post,
            url: String::from_str("https://accounts.spotify.com/api/token"),
            auth: Auth::Basic {
                user: self.client_id.clone(),
                password: self.client_secret.clone(),
            },
            query: Vec::new(),
            body: Body::Form(form),
        };
        assert(request.query.deep_view() =~= Seq::empty());
        assert(form.deep_view() =~= seq![
            ("grant_type"@, "refresh_token"@),
            ("refresh_token"@, self.token()),
        ]);
        request
    }

    /// What the reply amounts to, given its body once more as the parsed document.
    pub fn settle(&self, reply: &Reply, document: &Option<Json>) -> (result: Result<
        Refreshed,
        Failure,
    >)
        ensures
            outcome_view(result) == refresh_outcome(
                reply.status,
                reply.body@,
                document.deep_view(),
            ),
    {
        if is_success(reply.status) {
            match settle::<TokenResponse>(reply.status, document) {
                Ok(tokens) => Ok(Refreshed::Tokens(tokens)),
                Err(failure) => Err(failure),
            }
        } else {
            Ok(Refreshed::Declined(reply.body.clone()))
        }
    }

    /// What the reply amounts to.
    pub fn response(&self, reply: &Reply) -> (result: Result<Refreshed, Failure>)
        ensures
            outcome_view(result) == refresh_outcome(
                reply.status,
                reply.body@,
                json_of_text(reply.body@),
            ),
    {
        let document = Json::parse(reply.body.as_str());
        self.settle(reply, &document)
    }
}

} // verus!
