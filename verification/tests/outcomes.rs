use std::rc::Rc;

use spotifyexp::api::player::is_playing;
use spotifyexp::api::token::{show_tokens, Refreshed};
use spotifyexp::api::{
    EnqueueTrack, GetCurrentlyPlayingTrack, GetPlaylists, ListDevices, ListTracks,
    PausePlayback, Playback, RefreshToken, SearchAlbums, SearchArtists, SkipToNextTrack,
    StartPlaying,
};
use spotifyexp::config::SpotifyConfig;
use spotifyexp::failure::Failure;
use spotifyexp::http::Reply;
use spotifyexp::json::Json;
use spotifyexp::objects::{Artist, ListDevicesResponse, TokenResponse};
use spotifyexp::outcome::{acknowledge, read_reply, refuse, settle, settle_plain};

const ENVELOPE: &str = "{\"error\":{\"status\":401,\"message\":\"The access token expired\"}}";

const ARTIST: &str = "{\"id\":\"i\",\"href\":\"h\",\"name\":\"n\",\"uri\":\"u\"}";

fn config() -> Rc<SpotifyConfig> {
    Rc::new(SpotifyConfig {
        client_id: "id".to_string(),
        client_secret: "secret".to_string(),
        access_token: "token".to_string(),
        refresh_token: "refresh".to_string(),
    })
}

fn reply(status: u16, body: &str) -> Reply {
    Reply { status, body: body.to_string() }
}

fn expired() -> Failure {
    Failure::Api { status: 401, message: "The access token expired".to_string() }
}

fn artist() -> Artist {
    Artist {
        id: "i".to_string(),
        href: "h".to_string(),
        name: "n".to_string(),
        uri: "u".to_string(),
    }
}

#[test]
fn success_with_the_expected_record() {
    assert_eq!(read_reply::<Artist>(&reply(200, ARTIST)), Ok(artist()));
    assert_eq!(read_reply::<Artist>(&reply(201, ARTIST)), Ok(artist()));
    assert_eq!(read_reply::<Artist>(&reply(299, ARTIST)), Ok(artist()));
}

#[test]
fn success_with_another_body_is_a_deserialization_failure() {
    assert_eq!(read_reply::<Artist>(&reply(200, "{}")), Err(Failure::Deserialization));
    assert_eq!(read_reply::<Artist>(&reply(200, "")), Err(Failure::Deserialization));
    assert_eq!(read_reply::<Artist>(&reply(204, "")), Err(Failure::Deserialization));
    assert_eq!(read_reply::<Artist>(&reply(200, "not json")), Err(Failure::Deserialization));
    assert_eq!(read_reply::<Artist>(&reply(200, "[]")), Err(Failure::Deserialization));
}

#[test]
fn success_with_an_error_envelope_is_not_success() {
    let with_envelope = reply(200, ENVELOPE);
    let config = config();
    assert_eq!(
        ListDevices::new(&config).response(&with_envelope),
        Err(Failure::Deserialization)
    );
    assert_eq!(
        GetCurrentlyPlayingTrack::new(&config).response(&with_envelope),
        Err(Failure::Deserialization)
    );
    assert_eq!(
        GetPlaylists::new(&config).response(&with_envelope),
        Err(Failure::Deserialization)
    );
    assert_eq!(
        ListTracks::new(&config, "a").response(&with_envelope),
        Err(Failure::Deserialization)
    );
    assert_eq!(
        SearchAlbums::new(&config, "q").response(&with_envelope),
        Err(Failure::Deserialization)
    );
    assert_eq!(
        SearchArtists::new(&config, "q").response(&with_envelope),
        Err(Failure::Deserialization)
    );
    assert_eq!(
        RefreshToken::new(&config).response(&with_envelope),
        Err(Failure::Deserialization)
    );
    assert_eq!(is_playing(&with_envelope), Err(Failure::Deserialization));
}

#[test]
fn refusal_with_an_envelope_reports_its_message() {
    for status in [400u16, 401, 403, 404, 429, 500, 503, 199, 300, 0, 1000] {
        let result = read_reply::<ListDevicesResponse>(&reply(status, ENVELOPE));
        assert_eq!(result, Err(expired()), "status {}", status);
    }
}

#[test]
fn refusal_message_is_the_envelope_message_exactly() {
    let body = "{\"error\":{\"status\":404,\"message\":\"  No active device found.\\n\"}}";
    match read_reply::<Artist>(&reply(404, body)) {
        Err(Failure::Api { status, message }) => {
            assert_eq!(status, 404);
            assert_eq!(message, "  No active device found.\n");
        }
        other => panic!("unexpected {:?}", other),
    }
    let empty = "{\"error\":{\"status\":500,\"message\":\"\"}}";
    assert_eq!(
        acknowledge(&reply(500, empty)),
        Err(Failure::Api { status: 500, message: String::new() })
    );
}

#[test]
fn refusal_takes_the_status_from_the_envelope() {
    let body = "{\"error\":{\"status\":403,\"message\":\"m\"}}";
    assert_eq!(
        acknowledge(&reply(404, body)),
        Err(Failure::Api { status: 403, message: "m".to_string() })
    );
}

#[test]
fn refusal_without_an_envelope_reports_the_status() {
    let bodies = [
        "",
        "Bad Gateway",
        "{}",
        "[]",
        "null",
        "{\"error\":\"invalid_grant\"}",
        "{\"error\":{\"status\":401}}",
        "{\"error\":{\"message\":\"m\"}}",
        ARTIST,
    ];
    for body in bodies {
        assert_eq!(
            read_reply::<Artist>(&reply(502, body)),
            Err(Failure::Status { code: 502 }),
            "body {:?}",
            body
        );
        assert_eq!(
            acknowledge(&reply(404, body)),
            Err(Failure::Status { code: 404 }),
            "body {:?}",
            body
        );
    }
}

#[test]
fn refusal_without_an_envelope_names_the_code_in_its_message() {
    let failure = acknowledge(&reply(404, "gone")).unwrap_err();
    assert_eq!(failure.message(), "Request failed: 404");
    assert!(failure.message().contains("404"));
    let failure = read_reply::<Artist>(&reply(503, "")).unwrap_err();
    assert_eq!(failure.message(), "Request failed: 503");
}

#[test]
fn acknowledge_takes_any_success_status() {
    assert_eq!(acknowledge(&reply(200, "")), Ok(()));
    assert_eq!(acknowledge(&reply(204, "")), Ok(()));
    assert_eq!(acknowledge(&reply(202, "{}")), Ok(()));
    assert_eq!(acknowledge(&reply(299, "whatever")), Ok(()));
}

#[test]
fn acknowledge_refuses_an_error_envelope_under_a_success_status() {
    for status in [200u16, 201, 202, 204, 299] {
        assert_eq!(acknowledge(&reply(status, ENVELOPE)), Err(expired()), "status {}", status);
    }
    let body = "{\"error\":{\"status\":401,\"message\":\"x\"},\"more\":true}";
    assert_eq!(
        acknowledge(&reply(200, body)),
        Err(Failure::Api { status: 401, message: "x".to_string() })
    );
}

#[test]
fn acknowledge_takes_a_success_whose_body_is_no_envelope() {
    let bodies = [
        "",
        "{}",
        "null",
        "not json",
        "{\"error\":\"invalid_grant\"}",
        "{\"error\":{\"status\":401}}",
        "{\"error\":{\"message\":\"m\"}}",
        "{\"status\":401,\"message\":\"m\"}",
    ];
    for body in bodies {
        assert_eq!(acknowledge(&reply(200, body)), Ok(()), "body {:?}", body);
    }
}

#[test]
fn commands_refuse_an_error_envelope_under_a_success_status() {
    let config = config();
    let body = "{\"error\":{\"status\":401,\"message\":\"x\"}}";
    let enveloped = reply(200, body);
    let failure = Failure::Api { status: 401, message: "x".to_string() };
    let started = StartPlaying::new(&config, "dev1").response(&enveloped);
    assert!(started.is_err());
    assert_eq!(started, Err(failure.clone()));
    assert_eq!(
        StartPlaying::with_tracks(&config, "dev1", vec!["t".to_string()]).response(&enveloped),
        Err(failure.clone())
    );
    assert_eq!(Playback::new(&config, "dev1", "u").response(&enveloped), Err(failure.clone()));
    assert_eq!(EnqueueTrack::new(&config, "dev1", "u").response(&enveloped), Err(failure.clone()));
    assert_eq!(SkipToNextTrack::new(&config, "dev1").response(&enveloped), Err(failure.clone()));
    assert_eq!(PausePlayback::new(&config, "dev1").response(&enveloped), Err(failure));
}

#[test]
fn commands_acknowledge_their_replies() {
    let config = config();
    let ok = reply(204, "");
    let refused = reply(404, "{\"error\":{\"status\":404,\"message\":\"Device not found\"}}");
    let failure = Failure::Api { status: 404, message: "Device not found".to_string() };
    assert_eq!(StartPlaying::new(&config, "d").response(&ok), Ok(()));
    assert_eq!(StartPlaying::new(&config, "d").response(&refused), Err(failure.clone()));
    assert_eq!(Playback::new(&config, "d", "u").response(&ok), Ok(()));
    assert_eq!(Playback::new(&config, "d", "u").response(&refused), Err(failure.clone()));
    assert_eq!(EnqueueTrack::new(&config, "d", "u").response(&ok), Ok(()));
    assert_eq!(EnqueueTrack::new(&config, "d", "u").response(&refused), Err(failure.clone()));
    assert_eq!(SkipToNextTrack::new(&config, "d").response(&ok), Ok(()));
    assert_eq!(SkipToNextTrack::new(&config, "d").response(&refused), Err(failure.clone()));
    assert_eq!(PausePlayback::new(&config, "d").response(&ok), Ok(()));
    assert_eq!(PausePlayback::new(&config, "d").response(&refused), Err(failure));
}

#[test]
fn settle_works_on_the_parsed_document() {
    let document = Json::parse(ARTIST);
    assert_eq!(settle::<Artist>(200, &document), Ok(artist()));
    assert_eq!(settle::<Artist>(404, &document), Err(Failure::Status { code: 404 }));
    assert_eq!(settle::<Artist>(200, &None), Err(Failure::Deserialization));
    assert_eq!(settle::<Artist>(500, &None), Err(Failure::Status { code: 500 }));
    let envelope = Json::parse(ENVELOPE);
    assert_eq!(settle::<Artist>(200, &envelope), Err(Failure::Deserialization));
    assert_eq!(settle::<Artist>(401, &envelope), Err(expired()));
}

#[test]
fn settle_plain_works_on_the_parsed_document() {
    let envelope = Json::parse(ENVELOPE);
    assert_eq!(settle_plain(200, &None), Ok(()));
    assert_eq!(settle_plain(204, &Some(Json::Null)), Ok(()));
    assert_eq!(settle_plain(200, &Json::parse("{}")), Ok(()));
    assert_eq!(settle_plain(200, &envelope), Err(expired()));
    assert_eq!(settle_plain(299, &envelope), Err(expired()));
    assert_eq!(settle_plain(401, &envelope), Err(expired()));
    assert_eq!(settle_plain(401, &None), Err(Failure::Status { code: 401 }));
    assert_eq!(settle_plain(300, &Some(Json::Null)), Err(Failure::Status { code: 300 }));
}

#[test]
fn refuse_words_the_failure() {
    assert_eq!(refuse(401, &Json::parse(ENVELOPE)), expired());
    assert_eq!(refuse(401, &Json::parse("{}")), Failure::Status { code: 401 });
    assert_eq!(refuse(65535, &None), Failure::Status { code: 65535 });
}

#[test]
fn is_playing_reads_the_flag() {
    let body = "{\"timestamp\":1,\"is_playing\":true,\"currently_playing_type\":\"track\",\"item\":{\"album\":null,\"artists\":[],\"name\":\"n\"}}";
    assert_eq!(is_playing(&reply(200, body)), Ok(true));
    let body = body.replace("true", "false");
    assert_eq!(is_playing(&reply(200, &body)), Ok(false));
}

#[test]
fn is_playing_fails_as_the_request_does() {
    assert_eq!(is_playing(&reply(204, "")), Err(Failure::Deserialization));
    assert_eq!(is_playing(&reply(401, ENVELOPE)), Err(expired()));
    assert_eq!(is_playing(&reply(500, "")), Err(Failure::Status { code: 500 }));
}

#[test]
fn refresh_hands_out_the_tokens() {
    let body = "{\"access_token\":\"new-a\",\"refresh_token\":\"new-r\",\"expires_in\":3600}";
    let result = RefreshToken::new(&config()).response(&reply(200, body));
    assert_eq!(
        result,
        Ok(Refreshed::Tokens(TokenResponse {
            access_token: "new-a".to_string(),
            refresh_token: "new-r".to_string(),
        }))
    );
}

#[test]
fn refresh_without_tokens_in_a_success_fails() {
    let result = RefreshToken::new(&config()).response(&reply(200, "{\"access_token\":\"a\"}"));
    assert_eq!(result, Err(Failure::Deserialization));
}

#[test]
fn refresh_hands_on_what_the_service_said_when_it_declines() {
    let body = "{\"error\":\"invalid_grant\",\"error_description\":\"Invalid refresh token\"}";
    let result = RefreshToken::new(&config()).response(&reply(400, body));
    assert_eq!(result, Ok(Refreshed::Declined(body.to_string())));
    let result = RefreshToken::new(&config()).response(&reply(503, ""));
    assert_eq!(result, Ok(Refreshed::Declined(String::new())));
}

#[test]
fn refresh_settle_works_on_the_parsed_document() {
    let operation = RefreshToken::new(&config());
    let body = "{\"access_token\":\"a\",\"refresh_token\":\"r\"}";
    let result = operation.settle(&reply(200, body), &Json::parse(body));
    assert_eq!(
        result,
        Ok(Refreshed::Tokens(TokenResponse {
            access_token: "a".to_string(),
            refresh_token: "r".to_string(),
        }))
    );
    assert_eq!(operation.settle(&reply(200, body), &None), Err(Failure::Deserialization));
    assert_eq!(
        operation.settle(&reply(400, "no"), &None),
        Ok(Refreshed::Declined("no".to_string()))
    );
}

#[test]
fn token_lines() {
    let tokens = TokenResponse { access_token: "abc".to_string(), refresh_token: "xyz".to_string() };
    assert_eq!(
        show_tokens(&tokens),
        vec!["SPOTIFY_ACCESS_TOKEN='abc'".to_string(), "SPOTIFY_REFRESH_TOKEN='xyz'".to_string()]
    );
}
