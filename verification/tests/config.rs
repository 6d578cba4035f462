use spotifyexp::config::SpotifyConfig;
use spotifyexp::failure::Failure;

fn some(value: &str) -> Option<String> {
    Some(value.to_string())
}

fn missing(variable: &str) -> Result<SpotifyConfig, Failure> {
    Err(Failure::Configuration { variable: variable.to_string() })
}

#[test]
fn all_four_values_make_a_configuration() {
    assert_eq!(
        SpotifyConfig::from_values(some("id"), some("secret"), some("access"), some("refresh")),
        Ok(SpotifyConfig {
            client_id: "id".to_string(),
            client_secret: "secret".to_string(),
            access_token: "access".to_string(),
            refresh_token: "refresh".to_string(),
        })
    );
}

#[test]
fn empty_values_are_values() {
    let config = SpotifyConfig::from_values(some(""), some(""), some(""), some("")).unwrap();
    assert_eq!(config.client_id, "");
    assert_eq!(config.refresh_token, "");
}

#[test]
fn missing_client_id_fails() {
    assert_eq!(
        SpotifyConfig::from_values(None, some("s"), some("a"), some("r")),
        missing("SPOTIFY_CLIENT_ID")
    );
}

#[test]
fn missing_client_secret_fails() {
    assert_eq!(
        SpotifyConfig::from_values(some("i"), None, some("a"), some("r")),
        missing("SPOTIFY_CLIENT_SECRET")
    );
}

#[test]
fn missing_access_token_fails() {
    assert_eq!(
        SpotifyConfig::from_values(some("i"), some("s"), None, some("r")),
        missing("SPOTIFY_ACCESS_TOKEN")
    );
}

#[test]
fn missing_refresh_token_fails() {
    assert_eq!(
        SpotifyConfig::from_values(some("i"), some("s"), some("a"), None),
        missing("SPOTIFY_REFRESH_TOKEN")
    );
}

#[test]
fn the_first_missing_value_is_named() {
    assert_eq!(SpotifyConfig::from_values(None, None, None, None), missing("SPOTIFY_CLIENT_ID"));
    assert_eq!(
        SpotifyConfig::from_values(some("i"), None, None, None),
        missing("SPOTIFY_CLIENT_SECRET")
    );
    assert_eq!(
        SpotifyConfig::from_values(some("i"), some("s"), None, None),
        missing("SPOTIFY_ACCESS_TOKEN")
    );
    assert_eq!(
        SpotifyConfig::from_values(None, some("s"), None, some("r")),
        missing("SPOTIFY_CLIENT_ID")
    );
}

#[test]
fn missing_values_fail_every_time() {
    for _ in 0..3 {
        assert_eq!(
            SpotifyConfig::from_values(some("i"), some("s"), None, some("r")),
            missing("SPOTIFY_ACCESS_TOKEN")
        );
    }
}

#[test]
fn configuration_failure_names_the_variable_in_its_message() {
    let failure = SpotifyConfig::from_values(some("i"), some("s"), some("a"), None).unwrap_err();
    assert_eq!(failure.message(), "Failed to fetch configuration: missing SPOTIFY_REFRESH_TOKEN");
}
