//! Playback: devices, what is playing, starting, pausing, queueing and skipping.

use crate::config::SpotifyConfig;
use crate::failure::{Failure, FailureView};
use crate::http::{AuthView, BodyView, Method, Reply, Request, RequestView};
use crate::json::{
    json_of_text, list_object_text, object_text, render_list_object, render_object, JsonView,
};
use crate::objects::{CurrentlyPlayingTrackResponse, ListDevicesResponse};
use crate::outcome::{acknowledge, outcome_view, plain_outcome, read_reply, record_outcome};
use crate::workflow::{enqueue_start, Progress, Workflow};
use std::rc::Rc;
use vstd::prelude::*;

verus! {

/// The request that lists the playback devices.
pub open spec fn list_devices_request(token: Seq<char>) -> RequestView {
    RequestView {
        method: Method::Get,
        url: "https://api.spotify.com/v1/me/player/devices"@,
        auth: AuthView::Bearer(token),
        query: Seq::empty(),
        body: BodyView::Empty,
    }
}

/// The request that asks what is playing.
pub open spec fn currently_playing_request(token: Seq<char>) -> RequestView {
    RequestView {
        method: Method::Get,
        url: "https://api.spotify.com/v1/me/player/currently-playing"@,
        auth: AuthView::Bearer(token),
        query: seq![("market"@, "from_token"@)],
        body: BodyView::Empty,
    }
}

/// The body that starts playback: empty braces to play whatever the device has loaded,
/// the member `uris` to play the given tracks.
pub open spec fn start_playing_body(tracks: Seq<Seq<char>>) -> Seq<char> {
    if tracks.len() == 0 {
        "{}"@
    } else {
        list_object_text("uris"@, tracks)
    }
}

/// The request that starts playback on a device.
pub open spec fn start_playing_request(
    token: Seq<char>,
    device_id: Seq<char>,
    tracks: Seq<Seq<char>>,
) -> RequestView {
    RequestView {
        method: Method::Put,
        url: "https://api.spotify.com/v1/me/player/play"@,
        auth: AuthView::Bearer(token),
        query: seq![("device_id"@, device_id)],
        body: BodyView::Json(start_playing_body(tracks)),
    }
}

/// The request that plays a context (an album or a playlist) on a device.
pub open spec fn playback_request(
    token: Seq<char>,
    device_id: Seq<char>,
    uri: Seq<char>,
) -> RequestView {
    RequestView {
        method: Method::Put,
        url: "https://api.spotify.com/v1/me/player/play"@,
        auth: AuthView::Bearer(token),
        query: seq![("device_id"@, device_id)],
        body: BodyView::Json(object_text("context_uri"@, uri)),
    }
}

/// The request that appends a track to a device's queue.
pub open spec fn enqueue_request(
    token: Seq<char>,
    device_id: Seq<char>,
    uri: Seq<char>,
) -> RequestView {
    RequestView {
        method: Method::Post,
        url: "https://api.spotify.com/v1/me/player/queue"@,
        auth: AuthView::Bearer(token),
        query: seq![("device_id"@, device_id), ("uri"@, uri)],
        body: BodyView::Json("{}"@),
    }
}

/// The request that skips to the next track in a device's queue.
pub open spec fn skip_request(token: Seq<char>, device_id: Seq<char>) -> RequestView {
    RequestView {
        method: Method::Post,
        url: "https://api.spotify.com/v1/me/player/next"@,
        auth: AuthView::Bearer(token),
        query: seq![("device_id"@, device_id)],
        body: BodyView::Json("{}"@),
    }
}

/// The request that pauses playback on a device.
pub open spec fn pause_request(token: Seq<char>, device_id: Seq<char>) -> RequestView {
    RequestView {
        method: Method::Put,
        url: "https://api.spotify.com/v1/me/player/pause"@,
        auth: AuthView::Bearer(token),
        query: seq![("device_id"@, device_id)],
        body: BodyView::Json("{}"@),
    }
}

/// Lists the devices playback can run on.
pub struct ListDevices {
    config: Rc<SpotifyConfig>,
}

impl ListDevices {
    /// The access token the request is signed with.
    pub closed spec fn token(&self) -> Seq<char> {
        self.config.access_token@
    }

    /// Lists the devices of the user whose access token `config` holds.
    pub fn new(config: &Rc<SpotifyConfig>) -> (operation: Self)
        ensures
            operation.token() == config.access_token@,
    {
        Self { config: config.clone() }
    }

    /// What to send.
    pub fn request(&self) -> (request: Request)
        ensures
            request.deep_view() == list_devices_request(self.token()),
    {
        Request::new(
            Method::Get,
            "https://api.spotify.com/v1/me/player/devices",
            self.config.access_token.as_str(),
        )
    }

    /// What the reply amounts to.
    pub fn response(&self, reply: &Reply) -> (result: Result<ListDevicesResponse, Failure>)
        ensures
            outcome_view(result) == record_outcome::<ListDevicesResponse>(
                reply.status,
                json_of_text(reply.body@),
            ),
    {
        read_reply::<ListDevicesResponse>(reply)
    }
}

/// Asks what is playing right now.
pub struct GetCurrentlyPlayingTrack {
    config: Rc<SpotifyConfig>,
}

impl GetCurrentlyPlayingTrack {
    /// The access token the request is signed with.
    pub closed spec fn token(&self) -> Seq<char> {
        self.config.access_token@
    }

    /// Asks what the user whose access token `config` holds is playing.
    pub fn new(config: &Rc<SpotifyConfig>) -> (operation: Self)
        ensures
            operation.token() == config.access_token@,
    {
        Self { config: config.clone() }
    }

    /// What to send.
    pub fn request(&self) -> (request: Request)
        ensures
            request.deep_view() == currently_playing_request(self.token()),
    {
        Request::new(
            Method::Get,
            "https://api.spotify.com/v1/me/player/currently-playing",
            self.config.access_token.as_str(),
        ).param("market", "from_token")
    }

    /// What the reply amounts to.
    pub fn response(&self, reply: &Reply) -> (result: Result<
        CurrentlyPlayingTrackResponse,
        Failure,
    >)
        ensures
            outcome_view(result) == record_outcome::<CurrentlyPlayingTrackResponse>(
                reply.status,
                json_of_text(reply.body@),
            ),
    {
        read_reply::<CurrentlyPlayingTrackResponse>(reply)
    }
}

/// Starts playback on a device: of whatever the device has loaded, or of given tracks.
pub struct StartPlaying {
    config: Rc<SpotifyConfig>,
    device_id: String,
    tracks: Vec<String>,
}

impl StartPlaying {
    /// The access token the request is signed with.
    pub closed spec fn token(&self) -> Seq<char> {
        self.config.access_token@
    }

    /// The device that is to play.
    pub closed spec fn device(&self) -> Seq<char> {
        self.device_id@
    }

    /// The tracks to play; none to play what the device has loaded.
    pub closed spec fn track_uris(&self) -> Seq<Seq<char>> {
        self.tracks.deep_view()
    }

    /// Starts playback on the device `device_id` of whatever the device has loaded.
    pub fn new(config: &Rc<SpotifyConfig>, device_id: &str) -> (operation: Self)
        ensures
            operation.token() == config.access_token@,
            operation.device() == device_id@,
            operation.track_uris() == Seq::<Seq<char>>::empty(),
    {
        Self {
            config: config.clone(),
            device_id: device_id.to_owned(),
            tracks: Vec::new(),
        }
    }

    /// Starts playback of the tracks `track_uris`, in their order.
    pub fn with_tracks(
        config: &Rc<SpotifyConfig>,
        device_id: &str,
        track_uris: Vec<String>,
    ) -> (operation: Self)
        ensures
            operation.token() == config.access_token@,
            operation.device() == device_id@,
            operation.track_uris() == track_uris.deep_view(),
    {
        Self {
            config: config.clone(),
            device_id: device_id.to_owned(),
            tracks: track_uris,
        }
    }

    /// What to send.
    pub fn request(&self) -> (request: Request)
        ensures
            request.deep_view() == start_playing_request(
                self.token(),
                self.device(),
                self.track_uris(),
            ),
    {
        let body = if self.tracks.len() == 0 {
            String::from_str("{}")
        } else {
            render_list_object("uris", &self.tracks)
        };
        Request::new(
            Method::Put,
            "https://api.spotify.com/v1/me/player/play",
            self.config.access_token.as_str(),
        ).param("device_id", self.device_id.as_str()).json(body)
    }

    /// What the reply amounts to.
    pub fn response(&self, reply: &Reply) -> (result: Result<(), Failure>)
        ensures
            outcome_view(result) == plain_outcome(reply.status, json_of_text(reply.body@)),
    {
        acknowledge(reply)
    }
}

/// Plays a context, such as an album or a playlist, on a device.
pub struct Playback {
    config: Rc<SpotifyConfig>,
    device_id: String,
    uri: String,
}

impl Playback {
    /// The access token the request is signed with.
    pub closed spec fn token(&self) -> Seq<char> {
        self.config.access_token@
    }

    /// The device that is to play.
    pub closed spec fn device(&self) -> Seq<char> {
        self.device_id@
    }

    /// The context to play.
    pub closed spec fn context_uri(&self) -> Seq<char> {
        self.uri@
    }

    /// Plays the context `uri` on the device `device_id`.
    pub fn new(config: &Rc<SpotifyConfig>, device_id: &str, uri: &str) -> (operation: Self)
        ensures
            operation.token() == config.access_token@,
            operation.device() == device_id@,
            operation.context_uri() == uri@,
    {
        Self {
            config: config.clone(),
            device_id: device_id.to_owned(),
            uri: uri.to_owned(),
        }
    }

    /// What to send.
    pub fn request(&self) -> (request: Request)
        ensures
            request.deep_view() == playback_request(
                self.token(),
                self.device(),
                self.context_uri(),
            ),
    {
        let body = render_object("context_uri", self.uri.as_str());
        Request::new(
            Method::Put,
            "https://api.spotify.com/v1/me/player/play",
            self.config.access_token.as_str(),
        ).param("device_id", self.device_id.as_str()).json(body)
    }

    /// What the reply amounts to.
    pub fn response(&self, reply: &Reply) -> (result: Result<(), Failure>)
        ensures
            outcome_view(result) == plain_outcome(reply.status, json_of_text(reply.body@)),
    {
        acknowledge(reply)
    }
}

/// Appends a track to the queue of a device.
pub struct EnqueueTrack {
    config: Rc<SpotifyConfig>,
    device_id: String,
    uri: String,
}

impl EnqueueTrack {
    /// The access token the request is signed with.
    pub closed spec fn token(&self) -> Seq<char> {
        self.config.access_token@
    }

    /// The device whose queue grows.
    pub closed spec fn device(&self) -> Seq<char> {
        self.device_id@
    }

    /// The track to append.
    pub closed spec fn track_uri(&self) -> Seq<char> {
        self.uri@
    }

    /// Appends the track `uri` to the queue of the device `device_id`.
    pub fn new(config: &Rc<SpotifyConfig>, device_id: &str, uri: &str) -> (operation: Self)
        ensures
            operation.token() == config.access_token@,
            operation.device() == device_id@,
            operation.track_uri() == uri@,
    {
        Self {
            config: config.clone(),
            device_id: device_id.to_owned(),
            uri: uri.to_owned(),
        }
    }

    /// What to send.
    pub fn request(&self) -> (request: Request)
        ensures
            request.deep_view() == enqueue_request(self.token(), self.device(), self.track_uri()),
    {
        let request = Request::new(
            Method::Post,
            "https://api.spotify.com/v1/me/player/queue",
            self.config.access_token.as_str(),
        ).param("device_id", self.device_id.as_str()).param("uri", self.uri.as_str()).json(
            String::from_str("{}"),
        );
        assert(request.deep_view().query =~= seq![
            ("device_id"@, self.device()),
            ("uri"@, self.track_uri()),
        ]);
        request
    }

    /// What the reply amounts to.
    pub fn response(&self, reply: &Reply) -> (result: Result<(), Failure>)
        ensures
            outcome_view(result) == plain_outcome(reply.status, json_of_text(reply.body@)),
    {
        acknowledge(reply)
    }
}

/// Skips to the next track in the queue of a device.
pub struct SkipToNextTrack {
    config: Rc<SpotifyConfig>,
    device_id: String,
}

impl SkipToNextTrack {
    /// The access token the request is signed with.
    pub closed spec fn token(&self) -> Seq<char> {
        self.config.access_token@
    }

    /// The device that is to skip.
    pub closed spec fn device(&self) -> Seq<char> {
        self.device_id@
    }

    /// Skips to the next track on the device `device_id`.
    pub fn new(config: &Rc<SpotifyConfig>, device_id: &str) -> (operation: Self)
        ensures
            operation.token() == config.access_token@,
            operation.device() == device_id@,
    {
        Self { config: config.clone(), device_id: device_id.to_owned() }
    }

    /// What to send.
    pub fn request(&self) -> (request: Request)
        ensures
            request.deep_view() == skip_request(self.token(), self.device()),
    {
        Request::new(
            Method::Post,
            "https://api.spotify.com/v1/me/player/next",
            self.config.access_token.as_str(),
        ).param("device_id", self.device_id.as_str()).json(String::from_str("{}"))
    }

    /// What the reply amounts to.
    pub fn response(&self, reply: &Reply) -> (result: Result<(), Failure>)
        ensures
            outcome_view(result) == plain_outcome(reply.status, json_of_text(reply.body@)),
    {
        acknowledge(reply)
    }
}

/// Pauses playback on a device.
pub struct PausePlayback {
    config: Rc<SpotifyConfig>,
    device_id: String,
}

impl PausePlayback {
    /// The access token the request is signed with.
    pub closed spec fn token(&self) -> Seq<char> {
        self.config.access_token@
    }

    /// The device that is to pause.
    pub closed spec fn device(&self) -> Seq<char> {
        self.device_id@
    }

    /// Pauses playback on the device `device_id`.
    pub fn new(config: &Rc<SpotifyConfig>, device_id: &str) -> (operation: Self)
        ensures
            operation.token() == config.access_token@,
            operation.device() == device_id@,
    {
        Self { config: config.clone(), device_id: device_id.to_owned() }
    }

    /// What to send.
    pub fn request(&self) -> (request: Request)
        ensures
            request.deep_view() == pause_request(self.token(), self.device()),
    {
        Request::new(
            Method::Put,
            "https://api.spotify.com/v1/me/player/pause",
            self.config.access_token.as_str(),
        ).param("device_id", self.device_id.as_str()).json(String::from_str("{}"))
    }

    /// What the reply amounts to.
    pub fn response(&self, reply: &Reply) -> (result: Result<(), Failure>)
        ensures
            outcome_view(result) == plain_outcome(reply.status, json_of_text(reply.body@)),
    {
        acknowledge(reply)
    }
}

/// Whether the device is playing, according to the parsed body of a reply to
/// [`GetCurrentlyPlayingTrack`].
pub open spec fn playing_outcome(status: u16, document: Option<JsonView>) -> Result<
    bool,
    FailureView,
> {
    match record_outcome::<CurrentlyPlayingTrackResponse>(status, document) {
        Ok(state) => Ok(state.is_playing),
        Err(failure) => Err(failure),
    }
}

/// Reads from the reply to [`GetCurrentlyPlayingTrack`] whether something is playing.
pub fn is_playing(reply: &Reply) -> (result: Result<bool, Failure>)
    ensures
        outcome_view(result) == playing_outcome(reply.status, json_of_text(reply.body@)),
{
    match read_reply::<CurrentlyPlayingTrackResponse>(reply) {
        Ok(state) => Ok(state.is_playing),
        Err(failure) => Err(failure),
    }
}

/// Starts the run that appends `track_uris`, in order, to the queue of the device
/// `device_id`. The run stops at the first request that fails.
pub fn enqueue_tracks(
    config: &Rc<SpotifyConfig>,
    device_id: &str,
    track_uris: Vec<String>,
) -> (progress: Progress)
    ensures
        progress.deep_view() == enqueue_start(
            config.access_token@,
            device_id@,
            track_uris.deep_view(),
        ),
{
    Workflow::enqueue(config, device_id, track_uris)
}

} // verus!
