//! The playlists of the current user.

use crate::config::SpotifyConfig;
use crate::failure::Failure;
use crate::http::{AuthView, BodyView, Method, Reply, Request, RequestView};
use crate::json::json_of_text;
use crate::objects::GetPlaylistsResponse;
use crate::outcome::{outcome_view, read_reply, record_outcome};
use std::rc::Rc;
use vstd::prelude::*;

verus! {

/// The request that lists the playlists of the current user.
pub open spec fn playlists_request(token: Seq<char>) -> RequestView {
    RequestView {
        method: Method::Get,
        url: "https://api.spotify.com/v1/me/playlists"@,
        auth: AuthView::Bearer(token),
        query: Seq::empty(),
        body: BodyView::Empty,
    }
}

/// Lists the playlists of the current user.
pub struct GetPlaylists {
    config: Rc<SpotifyConfig>,
}

impl GetPlaylists {
    /// The access token the request is signed with.
    pub closed spec fn token(&self) -> Seq<char> {
        self.config.access_token@
    }

    /// Lists the playlists of the user whose access token `config` holds.
    pub fn new(config: &Rc<SpotifyConfig>) -> (operation: Self)
        ensures
            operation.token() == config.access_token@,
    {
        Self { config: config.clone() }
    }

    /// What to send.
    pub fn request(&self) -> (request: Request)
        ensures
            request.deep_view() == playlists_request(self.token()),
    {
        Request::new(
            Method::Get,
            "https://api.spotify.com/v1/me/playlists",
            self.config.access_token.as_str(),
        )
    }

    /// What the reply amounts to.
    pub fn response(&self, reply: &Reply) -> (result: Result<GetPlaylistsResponse, Failure>)
        ensures
            outcome_view(result) == record_outcome::<GetPlaylistsResponse>(
                reply.status,
                json_of_text(reply.body@),
            ),
    {
        read_reply::<GetPlaylistsResponse>(reply)
    }
}

} // verus!
