use spotifyexp::display::{
    show_album, show_albums, show_artist, show_artists, show_current_track, show_track,
    show_tracks,
};
use spotifyexp::failure::Failure;
use spotifyexp::objects::{
    Album, Artist, CurrentlyPlayingItem, Paging, SearchAlbumsResponse, SearchArtistsResponse,
    Track,
};
use spotifyexp::text::{decimal_string, join};

fn artist(name: &str) -> Artist {
    Artist {
        id: format!("id-{}", name),
        href: format!("href-{}", name),
        name: name.to_string(),
        uri: format!("spotify:artist:{}", name),
    }
}

fn album(name: &str) -> Album {
    Album {
        id: "al".to_string(),
        href: "h".to_string(),
        artists: vec![],
        name: name.to_string(),
        release_date: "2001".to_string(),
        uri: format!("spotify:album:{}", name),
    }
}

fn track(name: &str) -> Track {
    Track {
        id: "t".to_string(),
        href: "h".to_string(),
        artists: vec![],
        name: name.to_string(),
        disc_number: 1,
        track_number: 1,
        duration_ms: 1,
        uri: format!("spotify:track:{}", name),
    }
}

fn page<T>(items: Vec<T>) -> Paging<T> {
    Paging {
        href: "h".to_string(),
        limit: 20,
        offset: 0,
        total: items.len() as u32,
        items,
        next: None,
        previous: None,
    }
}

#[test]
fn decimal_of_small_numbers() {
    for n in 0..10u64 {
        assert_eq!(decimal_string(n), n.to_string());
    }
    assert_eq!(decimal_string(0), "0");
    assert_eq!(decimal_string(7), "7");
}

#[test]
fn decimal_of_larger_numbers() {
    assert_eq!(decimal_string(10), "10");
    assert_eq!(decimal_string(404), "404");
    assert_eq!(decimal_string(1000), "1000");
    assert_eq!(decimal_string(65535), "65535");
    assert_eq!(decimal_string(1234567890), "1234567890");
    assert_eq!(decimal_string(u64::MAX), "18446744073709551615");
}

#[test]
fn decimal_agrees_with_the_standard_library() {
    let mut n: u64 = 1;
    for _ in 0..64 {
        assert_eq!(decimal_string(n), n.to_string());
        assert_eq!(decimal_string(n - 1), (n - 1).to_string());
        n = n.wrapping_mul(3).wrapping_add(7);
    }
}

#[test]
fn join_puts_the_separator_between_neighbours() {
    let parts = vec!["a".to_string(), "b".to_string(), "c".to_string()];
    assert_eq!(join(&parts, ", "), "a, b, c");
    assert_eq!(join(&parts, ""), "abc");
    assert_eq!(join(&parts[..1].to_vec(), ", "), "a");
    assert_eq!(join(&vec![], ", "), "");
}

#[test]
fn join_keeps_empty_parts() {
    let parts = vec![String::new(), "x".to_string(), String::new()];
    assert_eq!(join(&parts, "-"), "-x-");
    assert_eq!(join(&vec![String::new()], "-"), "");
    assert_eq!(join(&vec![String::new(), String::new()], "-"), "-");
}

#[test]
fn failure_messages() {
    assert_eq!(
        Failure::Configuration { variable: "SPOTIFY_CLIENT_ID".to_string() }.message(),
        "Failed to fetch configuration: missing SPOTIFY_CLIENT_ID"
    );
    assert_eq!(Failure::Transport { detail: "timed out".to_string() }.message(), "timed out");
    assert_eq!(
        Failure::Api { status: 401, message: "The access token expired".to_string() }.message(),
        "Request failed: The access token expired"
    );
    assert_eq!(Failure::Status { code: 404 }.message(), "Request failed: 404");
    assert_eq!(Failure::Status { code: 0 }.message(), "Request failed: 0");
    assert_eq!(Failure::Status { code: 65535 }.message(), "Request failed: 65535");
    assert_eq!(Failure::Deserialization.message(), "Failed to parse response");
}

#[test]
fn api_failure_message_keeps_the_envelope_message_as_it_is() {
    let failure = Failure::Api { status: 400, message: " odd\ttext ".to_string() };
    assert_eq!(failure.message(), "Request failed:  odd\ttext ");
    let failure = Failure::Api { status: 400, message: String::new() };
    assert_eq!(failure.message(), "Request failed: ");
}

#[test]
fn entry_lines() {
    assert_eq!(show_track(&track("x")), "spotify:track:x x");
    assert_eq!(show_album(&album("Kind of Blue")), "spotify:album:Kind of Blue Kind of Blue");
    assert_eq!(show_artist(&artist("Miles")), "spotify:artist:Miles Miles");
}

#[test]
fn entry_line_with_empty_parts() {
    let mut nameless = track("");
    nameless.uri = String::new();
    assert_eq!(show_track(&nameless), " ");
}

#[test]
fn lines_for_lists() {
    let tracks = page(vec![track("a"), track("b")]);
    assert_eq!(show_tracks(&tracks), vec!["spotify:track:a a", "spotify:track:b b"]);
    let albums = SearchAlbumsResponse { albums: page(vec![album("x"), album("y"), album("z")]) };
    assert_eq!(
        show_albums(&albums),
        vec!["spotify:album:x x", "spotify:album:y y", "spotify:album:z z"]
    );
    let artists = SearchArtistsResponse { artists: page(vec![artist("p")]) };
    assert_eq!(show_artists(&artists), vec!["spotify:artist:p p"]);
}

#[test]
fn lines_for_empty_lists() {
    assert!(show_tracks(&page(vec![])).is_empty());
    assert!(show_albums(&SearchAlbumsResponse { albums: page(vec![]) }).is_empty());
    assert!(show_artists(&SearchArtistsResponse { artists: page(vec![]) }).is_empty());
}

#[test]
fn current_track_line_with_album() {
    let item = CurrentlyPlayingItem {
        album: Some(album("Kind of Blue")),
        artists: vec![artist("Miles Davis"), artist("John Coltrane")],
        name: "So What".to_string(),
    };
    assert_eq!(show_current_track(&item), "So What [Kind of Blue] - Miles Davis, John Coltrane");
}

#[test]
fn current_track_line_without_album() {
    let item = CurrentlyPlayingItem {
        album: None,
        artists: vec![artist("Host")],
        name: "Episode 1".to_string(),
    };
    assert_eq!(show_current_track(&item), "Episode 1 [unknown] - Host");
}

#[test]
fn current_track_line_without_artists() {
    let item = CurrentlyPlayingItem { album: None, artists: vec![], name: "Noise".to_string() };
    assert_eq!(show_current_track(&item), "Noise [unknown] - ");
}
