use std::rc::Rc;

use spotifyexp::api::{
    EnqueueTrack, GetCurrentlyPlayingTrack, GetPlaylists, ListDevices, ListTracks,
    PausePlayback, Playback, RefreshToken, SearchAlbums, SearchArtists, SkipToNextTrack,
    StartPlaying,
};
use spotifyexp::config::SpotifyConfig;
use spotifyexp::http::{is_success, Auth, Body, Method, Request};

fn config() -> Rc<SpotifyConfig> {
    Rc::new(SpotifyConfig {
        client_id: "id-1".to_string(),
        client_secret: "secret-2".to_string(),
        access_token: "token-3".to_string(),
        refresh_token: "refresh-4".to_string(),
    })
}

fn pair(name: &str, value: &str) -> (String, String) {
    (name.to_string(), value.to_string())
}

fn bearer() -> Auth {
    Auth::Bearer("token-3".to_string())
}

#[test]
fn request_builder_starts_empty() {
    let request = Request::new(Method::Get, "https://example.test/a", "t");
    assert_eq!(
        request,
        Request {
            method: Method::Get,
            url: "https://example.test/a".to_string(),
            auth: Auth::Bearer("t".to_string()),
            query: vec![],
            body: Body::Empty,
        }
    );
}

#[test]
fn request_builder_appends_parameters_in_order() {
    let request = Request::new(Method::Post, "u", "t").param("b", "2").param("a", "1");
    assert_eq!(request.query, vec![pair("b", "2"), pair("a", "1")]);
    assert_eq!(request.body, Body::Empty);
}

#[test]
fn request_builder_sets_json_body() {
    let request = Request::new(Method::Put, "u", "t").param("a", "1").json("{}".to_string());
    assert_eq!(request.body, Body::Json("{}".to_string()));
    assert_eq!(request.query, vec![pair("a", "1")]);
    assert_eq!(request.method, Method::Put);
}

#[test]
fn success_statuses_are_200_to_299() {
    assert!(!is_success(0));
    assert!(!is_success(199));
    assert!(is_success(200));
    assert!(is_success(204));
    assert!(is_success(299));
    assert!(!is_success(300));
    assert!(!is_success(404));
    assert!(!is_success(u16::MAX));
}

#[test]
fn list_devices_request() {
    let request = ListDevices::new(&config()).request();
    assert_eq!(
        request,
        Request {
            method: Method::Get,
            url: "https://api.spotify.com/v1/me/player/devices".to_string(),
            auth: bearer(),
            query: vec![],
            body: Body::Empty,
        }
    );
}

#[test]
fn currently_playing_request() {
    let request = GetCurrentlyPlayingTrack::new(&config()).request();
    assert_eq!(
        request,
        Request {
            method: Method::Get,
            url: "https://api.spotify.com/v1/me/player/currently-playing".to_string(),
            auth: bearer(),
            query: vec![pair("market", "from_token")],
            body: Body::Empty,
        }
    );
}

#[test]
fn start_playing_request_has_empty_object_body() {
    let request = StartPlaying::new(&config(), "device-9").request();
    assert_eq!(
        request,
        Request {
            method: Method::Put,
            url: "https://api.spotify.com/v1/me/player/play".to_string(),
            auth: bearer(),
            query: vec![pair("device_id", "device-9")],
            body: Body::Json("{}".to_string()),
        }
    );
}

#[test]
fn start_playing_with_tracks_lists_the_uris() {
    let tracks = vec!["spotify:track:a".to_string(), "spotify:track:b".to_string()];
    let request = StartPlaying::with_tracks(&config(), "device-9", tracks).request();
    assert_eq!(request.method, Method::Put);
    assert_eq!(request.url, "https://api.spotify.com/v1/me/player/play");
    assert_eq!(request.query, vec![pair("device_id", "device-9")]);
    assert_eq!(
        request.body,
        Body::Json("{\"uris\":[\"spotify:track:a\",\"spotify:track:b\"]}".to_string())
    );
}

#[test]
fn start_playing_with_no_tracks_is_plain_start() {
    let plain = StartPlaying::new(&config(), "d").request();
    let empty = StartPlaying::with_tracks(&config(), "d", vec![]).request();
    assert_eq!(plain, empty);
}

#[test]
fn start_playing_with_tracks_escapes_the_uris() {
    let tracks = vec!["a\"b\\c".to_string()];
    let request = StartPlaying::with_tracks(&config(), "d", tracks).request();
    assert_eq!(request.body, Body::Json("{\"uris\":[\"a\\\"b\\\\c\"]}".to_string()));
}

#[test]
fn playback_request_names_the_context() {
    let request = Playback::new(&config(), "device-9", "spotify:album:xyz").request();
    assert_eq!(
        request,
        Request {
            method: Method::Put,
            url: "https://api.spotify.com/v1/me/player/play".to_string(),
            auth: bearer(),
            query: vec![pair("device_id", "device-9")],
            body: Body::Json("{\"context_uri\":\"spotify:album:xyz\"}".to_string()),
        }
    );
}

#[test]
fn playback_request_escapes_the_context() {
    let request = Playback::new(&config(), "d", "say \"hi\"\n").request();
    assert_eq!(
        request.body,
        Body::Json("{\"context_uri\":\"say \\\"hi\\\"\\n\"}".to_string())
    );
}

#[test]
fn playback_body_parses_back_to_the_context() {
    let uri = "spotify:playlist:\u{e9}\t\"q\"";
    let request = Playback::new(&config(), "d", uri).request();
    let text = match request.body {
        Body::Json(text) => text,
        other => panic!("unexpected body {:?}", other),
    };
    let value: serde_json::Value = serde_json::from_str(&text).unwrap();
    assert_eq!(value.get("context_uri").and_then(|v| v.as_str()), Some(uri));
    assert_eq!(value.as_object().map(|o| o.len()), Some(1));
}

#[test]
fn enqueue_request() {
    let request = EnqueueTrack::new(&config(), "device-9", "spotify:track:t1").request();
    assert_eq!(
        request,
        Request {
            method: Method::Post,
            url: "https://api.spotify.com/v1/me/player/queue".to_string(),
            auth: bearer(),
            query: vec![pair("device_id", "device-9"), pair("uri", "spotify:track:t1")],
            body: Body::Json("{}".to_string()),
        }
    );
}

#[test]
fn skip_request() {
    let request = SkipToNextTrack::new(&config(), "device-9").request();
    assert_eq!(
        request,
        Request {
            method: Method::Post,
            url: "https://api.spotify.com/v1/me/player/next".to_string(),
            auth: bearer(),
            query: vec![pair("device_id", "device-9")],
            body: Body::Json("{}".to_string()),
        }
    );
}

#[test]
fn pause_request() {
    let request = PausePlayback::new(&config(), "device-9").request();
    assert_eq!(
        request,
        Request {
            method: Method::Put,
            url: "https://api.spotify.com/v1/me/player/pause".to_string(),
            auth: bearer(),
            query: vec![pair("device_id", "device-9")],
            body: Body::Json("{}".to_string()),
        }
    );
}

#[test]
fn playlists_request() {
    let request = GetPlaylists::new(&config()).request();
    assert_eq!(
        request,
        Request {
            method: Method::Get,
            url: "https://api.spotify.com/v1/me/playlists".to_string(),
            auth: bearer(),
            query: vec![],
            body: Body::Empty,
        }
    );
}

#[test]
fn list_tracks_request_puts_the_album_in_the_path() {
    let request = ListTracks::new(&config(), "4aawyAB9vmqN3uQ7FjRGTy").request();
    assert_eq!(
        request,
        Request {
            method: Method::Get,
            url: "https://api.spotify.com/v1/albums/4aawyAB9vmqN3uQ7FjRGTy/tracks".to_string(),
            auth: bearer(),
            query: vec![pair("market", "from_token"), pair("limit", "50")],
            body: Body::Empty,
        }
    );
}

#[test]
fn list_tracks_request_with_empty_album() {
    let request = ListTracks::new(&config(), "").request();
    assert_eq!(request.url, "https://api.spotify.com/v1/albums//tracks");
}

#[test]
fn search_albums_request() {
    let request = SearchAlbums::new(&config(), "kind of blue").request();
    assert_eq!(
        request,
        Request {
            method: Method::Get,
            url: "https://api.spotify.com/v1/search".to_string(),
            auth: bearer(),
            query: vec![pair("q", "kind of blue"), pair("type", "album")],
            body: Body::Empty,
        }
    );
}

#[test]
fn search_artists_request() {
    let request = SearchArtists::new(&config(), "miles davis").request();
    assert_eq!(
        request,
        Request {
            method: Method::Get,
            url: "https://api.spotify.com/v1/search".to_string(),
            auth: bearer(),
            query: vec![pair("q", "miles davis"), pair("type", "artist")],
            body: Body::Empty,
        }
    );
}

#[test]
fn refresh_request_uses_basic_auth_and_a_form() {
    let request = RefreshToken::new(&config()).request();
    assert_eq!(
        request,
        Request {
            method: Method::Post,
            url: "https://accounts.spotify.com/api/token".to_string(),
            auth: Auth::Basic { user: "id-1".to_string(), password: "secret-2".to_string() },
            query: vec![],
            body: Body::Form(vec![
                pair("grant_type", "refresh_token"),
                pair("refresh_token", "refresh-4"),
            ]),
        }
    );
}

#[test]
fn every_api_request_carries_the_access_token() {
    let config = config();
    let requests = vec![
        ListDevices::new(&config).request(),
        GetCurrentlyPlayingTrack::new(&config).request(),
        StartPlaying::new(&config, "d").request(),
        Playback::new(&config, "d", "u").request(),
        EnqueueTrack::new(&config, "d", "u").request(),
        SkipToNextTrack::new(&config, "d").request(),
        PausePlayback::new(&config, "d").request(),
        GetPlaylists::new(&config).request(),
        ListTracks::new(&config, "a").request(),
        SearchAlbums::new(&config, "q").request(),
        SearchArtists::new(&config, "q").request(),
    ];
    for request in requests {
        assert_eq!(request.auth, bearer());
        assert!(request.url.starts_with("https://api.spotify.com/v1/"));
    }
}
