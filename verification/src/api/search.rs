//! Searching the catalogue.

use crate::config::SpotifyConfig;
use crate::failure::Failure;
use crate::http::{AuthView, BodyView, Method, Reply, Request, RequestView};
use crate::json::json_of_text;
use crate::objects::{SearchAlbumsResponse, SearchArtistsResponse};
use crate::outcome::{outcome_view, read_reply, record_outcome};
use std::rc::Rc;
use vstd::prelude::*;

verus! {

/// The request that searches the catalogue for items of one kind (`album`, `artist`).
pub open spec fn search_request(
    token: Seq<char>,
    query: Seq<char>,
    kind: Seq<char>,
) -> RequestView {
    RequestView {
        method: Method::Get,
        url: "https://api.spotify.com/v1/search"@,
        auth: AuthView::Bearer(token),
        query: seq![("q"@, query), ("type"@, kind)],
        body: BodyView::Empty,
    }
}

fn search(token: &str, query: &str, kind: &str) -> (request: Request)
    ensures
        request.deep_view() == search_request(token@, query@, kind@),
{
    let request = Request::new(Method::Get, "https://api.spotify.com/v1/search", token).param(
        "q",
        query,
    ).param("type", kind);
    assert(request.deep_view().query =~= seq![("q"@, query@), ("type"@, kind@)]);
    request
}

/// Searches the catalogue for albums.
pub struct SearchAlbums {
    config: Rc<SpotifyConfig>,
    query: String,
}

impl SearchAlbums {
    /// The access token the request is signed with.
    pub closed spec fn token(&self) -> Seq<char> {
        self.config.access_token@
    }

    /// What is searched for.
    pub closed spec fn terms(&self) -> Seq<char> {
        self.query@
    }

    /// Searches for albums that match `query`.
    pub fn new(config: &Rc<SpotifyConfig>, query: &str) -> (operation: Self)
        ensures
            operation.token() == config.access_token@,
            operation.terms() == query@,
    {
        Self { config: config.clone(), query: query.to_owned() }
    }

    /// What to send.
    pub fn request(&self) -> (request: Request)
        ensures
            request.deep_view() == search_request(self.token(), self.terms(), "album"@),
    {
        search(self.config.access_token.as_str(), self.query.as_str(), "album")
    }

    /// What the reply amounts to.
    pub fn response(&self, reply: &Reply) -> (result: Result<SearchAlbumsResponse, Failure>)
        ensures
            outcome_view(result) == record_outcome::<SearchAlbumsResponse>(
                reply.status,
                json_of_text(reply.body@),
            ),
    {
        read_reply::<SearchAlbumsResponse>(reply)
    }
}

/// Searches the catalogue for artists.
pub struct SearchArtists {
    config: Rc<SpotifyConfig>,
    query: String,
}

impl SearchArtists {
    /// The access token the request is signed with.
    pub closed spec fn token(&self) -> Seq<char> {
        self.config.access_token@
    }

    /// What is searched for.
    pub closed spec fn terms(&self) -> Seq<char> {
        self.query@
    }

    /// Searches for artists that match `query`.
    pub fn new(config: &Rc<SpotifyConfig>, query: &str) -> (operation: Self)
        ensures
            operation.token() == config.access_token@,
            operation.terms() == query@,
    {
        Self { config: config.clone(), query: query.to_owned() }
    }

    /// What to send.
    pub fn request(&self) -> (request: Request)
        ensures
            request.deep_view() == search_request(self.token(), self.terms(), "artist"@),
    {
        search(self.config.access_token.as_str(), self.query.as_str(), "artist")
    }

    /// What the reply amounts to.
    pub fn response(&self, reply: &Reply) -> (result: Result<SearchArtistsResponse, Failure>)
        ensures
            outcome_view(result) == record_outcome::<SearchArtistsResponse>(
                reply.status,
                json_of_text(reply.body@),
            ),
    {
        read_reply::<SearchArtistsResponse>(reply)
    }
}

} // verus!
