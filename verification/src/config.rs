//! The four secrets every operation needs.

use crate::failure::{Failure, FailureView};
use vstd::prelude::*;

verus! {

/// The settings of one client: its registration with the API and its current tokens.
#[derive(Debug, Clone, PartialEq, Eq)]
pub struct SpotifyConfig {
    pub client_id: String,
    pub client_secret: String,
    pub access_token: String,
    pub refresh_token: String,
}

/// Mathematical model of [`SpotifyConfig`].
pub struct SpotifyConfigView {
    pub client_id: Seq<char>,
    pub client_secret: Seq<char>,
    pub access_token: Seq<char>,
    pub refresh_token: Seq<char>,
}

impl DeepView for SpotifyConfig {
    type V = SpotifyConfigView;

    open spec fn deep_view(&self) -> SpotifyConfigView {
        SpotifyConfigView {
            client_id: self.client_id@,
            client_secret: self.client_secret@,
            access_token: self.access_token@,
            refresh_token: self.refresh_token@,
        }
    }
}

/// The configuration that the four values make up, or the failure that names the first
/// of them that is missing. `None` stands for a variable that is not set.
pub open spec fn loaded(
    client_id: Option<Seq<char>>,
    client_secret: Option<Seq<char>>,
    access_token: Option<Seq<char>>,
    refresh_token: Option<Seq<char>>,
) -> Result<SpotifyConfigView, FailureView> {
    if client_id is None {
        Err(FailureView::Configuration { variable: "SPOTIFY_CLIENT_ID"@ })
    } else if client_secret is None {
        Err(FailureView::Configuration { variable: "SPOTIFY_CLIENT_SECRET"@ })
    } else if access_token is None {
        Err(FailureView::Configuration { variable: "SPOTIFY_ACCESS_TOKEN"@ })
    } else if refresh_token is None {
        Err(FailureView::Configuration { variable: "SPOTIFY_REFRESH_TOKEN"@ })
    } else {
        Ok(
            SpotifyConfigView {
                client_id: client_id->0,
                client_secret: client_secret->0,
                access_token: access_token->0,
                refresh_token: refresh_token->0,
            },
        )
    }
}

impl SpotifyConfig {
    /// Builds the configuration from the values of `SPOTIFY_CLIENT_ID`,
    /// `SPOTIFY_CLIENT_SECRET`, `SPOTIFY_ACCESS_TOKEN` and `SPOTIFY_REFRESH_TOKEN`, in
    /// that order. All four have to be there: no default stands in for a missing one.
    pub fn from_values(
        client_id: Option<String>,
        client_secret: Option<String>,
        access_token: Option<String>,
        refresh_token: Option<String>,
    ) -> (result: Result<SpotifyConfig, Failure>)
        ensures
            crate::outcome::outcome_view(result) == loaded(
                client_id.deep_view(),
                client_secret.deep_view(),
                access_token.deep_view(),
                refresh_token.deep_view(),
            ),
    {
        match (client_id, client_secret, access_token, refresh_token) {
            (None, _, _, _) => Err(
                Failure::Configuration { variable: String::from_str("SPOTIFY_CLIENT_ID") },
            ),
            (Some(_), None, _, _) => Err(
                Failure::Configuration { variable: String::from_str("SPOTIFY_CLIENT_SECRET") },
            ),
            (Some(_), Some(_), None, _) => Err(
                Failure::Configuration { variable: String::from_str("SPOTIFY_ACCESS_TOKEN") },
            ),
            (Some(_), Some(_), Some(_), None) => Err(
                Failure::Configuration { variable: String::from_str("SPOTIFY_REFRESH_TOKEN") },
            ),
            (Some(client_id), Some(client_secret), Some(access_token), Some(refresh_token)) => Ok(
                SpotifyConfig { client_id, client_secret, access_token, refresh_token },
            ),
        }
    }
}

/// Where any one of the four values is missing, loading fails, whatever the other three
/// are; where all four are there, it succeeds with exactly these values.
pub proof fn loading_needs_all_four(
    client_id: Option<Seq<char>>,
    client_secret: Option<Seq<char>>,
    access_token: Option<Seq<char>>,
    refresh_token: Option<Seq<char>>,
)
    ensures
        loaded(client_id, client_secret, access_token, refresh_token) is Ok <==> (client_id is Some
            && client_secret is Some && access_token is Some && refresh_token is Some),
        loaded(client_id, client_secret, access_token, refresh_token) matches Ok(config) ==> {
            &&& client_id == Some(config.client_id)
            &&& client_secret == Some(config.client_secret)
            &&& access_token == Some(config.access_token)
            &&& refresh_token == Some(config.refresh_token)
        },
        loaded(client_id, client_secret, access_token, refresh_token) matches Err(failure)
            ==> failure is Configuration,
{
}

} // verus!
