//! The tracks of an album.

use crate::config::SpotifyConfig;
use crate::failure::Failure;
use crate::http::{AuthView, BodyView, Method, Reply, Request, RequestView};
use crate::json::json_of_text;
use crate::objects::ListTracksResponse;
use crate::outcome::{outcome_view, read_reply, record_outcome};
use std::rc::Rc;
use vstd::prelude::*;

verus! {

/// The address of an album's track list. The id goes into the path as it is.
pub open spec fn album_tracks_url(album_id: Seq<char>) -> Seq<char> {
    "https://api.spotify.com/v1/albums/"@ + album_id + "/tracks"@
}

/// The request that lists the tracks of an album, fifty at most.
pub open spec fn list_tracks_request(token: Seq<char>, album_id: Seq<char>) -> RequestView {
    RequestView {
        method: Method::Get,
        url: album_tracks_url(album_id),
        auth: AuthView::Bearer(token),
        query: seq![("market"@, "from_token"@), ("limit"@, "50"@)],
        body: BodyView::Empty,
    }
}

/// Lists the tracks of an album.
pub struct ListTracks {
    config: Rc<SpotifyConfig>,
    album_id: String,
}

impl ListTracks {
    /// The access token the request is signed with.
    pub closed spec fn token(&self) -> Seq<char> {
        self.config.access_token@
    }

    /// The album whose tracks are listed.
    pub closed spec fn album(&self) -> Seq<char> {
        self.album_id@
    }

    /// Lists the tracks of the album `album_id`.
    pub fn new(config: &Rc<SpotifyConfig>, album_id: &str) -> (operation: Self)
        ensures
            operation.token() == config.access_token@,
            operation.album() == album_id@,
    {
        Self { config: config.clone(), album_id: album_id.to_owned() }
    }

    /// What to send.
    pub fn request(&self) -> (request: Request)
        ensures
            request.deep_view() == list_tracks_request(self.token(), self.album()),
    {
        let mut url = String::from_str("https://api.spotify.com/v1/albums/");
        url.append(self.album_id.as_str());
        url.append("/tracks");
        let request = Request::new(
            Method::Get,
            url.as_str(),
            self.config.access_token.as_str(),
        ).param("market", "from_token").param("limit", "50");
        assert(request.deep_view().query =~= seq![("market"@, "from_token"@), ("limit"@, "50"@)]);
        request
    }

    /// What the reply amounts to.
    pub fn response(&self, reply: &Reply) -> (result: Result<ListTracksResponse, Failure>)
        ensures
            outcome_view(result) == record_outcome::<ListTracksResponse>(
                reply.status,
                json_of_text(reply.body@),
            ),
    {
        read_reply::<ListTracksResponse>(reply)
    }
}

} // verus!
