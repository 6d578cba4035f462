//! The lines in which results are shown to a person.

use crate::objects::{
    Album, AlbumView, Artist, ArtistView, CurrentlyPlayingItem, CurrentlyPlayingItemView,
    ListTracksResponse, SearchAlbumsResponse, SearchArtistsResponse, Track,
};
use crate::text::{join, joined};
use vstd::prelude::*;

verus! {

/// The line for something that has an address and a name: the two with a space between.
pub open spec fn entry_line(uri: Seq<char>, name: Seq<char>) -> Seq<char> {
    uri + " "@ + name
}

/// The names of `artists`, in order.
pub open spec fn artist_names(artists: Seq<ArtistView>) -> Seq<Seq<char>> {
    Seq::new(artists.len(), |i: int| artists[i].name)
}

/// The title under which the album of what is playing is shown: its name, or `unknown`
/// where there is no album.
pub open spec fn album_title(album: Option<AlbumView>) -> Seq<char> {
    match album {
        Some(album) => album.name,
        None => "unknown"@,
    }
}

/// The line for what is playing: name, album title in square brackets, and the artists'
/// names with commas between.
pub open spec fn current_track_line(item: CurrentlyPlayingItemView) -> Seq<char> {
    item.name + " ["@ + album_title(item.album) + "] - "@ + joined(
        artist_names(item.artists),
        ", "@,
    )
}

fn entry(uri: &str, name: &str) -> (line: String)
    ensures
        line@ == entry_line(uri@, name@),
{
    let mut line = uri.to_owned();
    line.append(" ");
    line.append(name);
    line
}

/// The line that shows a track.
pub fn show_track(track: &Track) -> (line: String)
    ensures
        line@ == entry_line(track.uri@, track.name@),
{
    entry(track.uri.as_str(), track.name.as_str())
}

/// The line that shows an album.
pub fn show_album(album: &Album) -> (line: String)
    ensures
        line@ == entry_line(album.uri@, album.name@),
{
    entry(album.uri.as_str(), album.name.as_str())
}

/// The line that shows an artist.
pub fn show_artist(artist: &Artist) -> (line: String)
    ensures
        line@ == entry_line(artist.uri@, artist.name@),
{
    entry(artist.uri.as_str(), artist.name.as_str())
}

/// The lines that show the tracks of an album, one for each track in order.
pub fn show_tracks(response: &ListTracksResponse) -> (lines: Vec<String>)
    ensures
        lines.deep_view() == Seq::new(
            response.items.len() as nat,
            |i: int| entry_line(response.items[i].uri@, response.items[i].name@),
        ),
{
    let mut lines: Vec<String> = Vec::new();
    let mut i: usize = 0;
    while i < response.items.len()
        invariant
            i <= response.items.len(),
            lines.len() == i,
            forall|k: int|
                0 <= k < i ==> (#[trigger] lines[k])@ == entry_line(
                    response.items[k].uri@,
                    response.items[k].name@,
                ),
        decreases response.items.len() - i,
    {
        lines.push(show_track(&response.items[i]));
        i += 1;
    }
    lines
}

/// The lines that show the albums a search found, one for each album in order.
pub fn show_albums(response: &SearchAlbumsResponse) -> (lines: Vec<String>)
    ensures
        lines.deep_view() == Seq::new(
            response.albums.items.len() as nat,
            |i: int| entry_line(response.albums.items[i].uri@, response.albums.items[i].name@),
        ),
{
    let mut lines: Vec<String> = Vec::new();
    let mut i: usize = 0;
    while i < response.albums.items.len()
        invariant
            i <= response.albums.items.len(),
            lines.len() == i,
            forall|k: int|
                0 <= k < i ==> (#[trigger] lines[k])@ == entry_line(
                    response.albums.items[k].uri@,
                    response.albums.items[k].name@,
                ),
        decreases response.albums.items.len() - i,
    {
        lines.push(show_album(&response.albums.items[i]));
        i += 1;
    }
    lines
}

/// The lines that show the artists a search found, one for each artist in order.
pub fn show_artists(response: &SearchArtistsResponse) -> (lines: Vec<String>)
    ensures
        lines.deep_view() == Seq::new(
            response.artists.items.len() as nat,
            |i: int| entry_line(response.artists.items[i].uri@, response.artists.items[i].name@),
        ),
{
    let mut lines: Vec<String> = Vec::new();
    let mut i: usize = 0;
    while i < response.artists.items.len()
        invariant
            i <= response.artists.items.len(),
            lines.len() == i,
            forall|k: int|
                0 <= k < i ==> (#[trigger] lines[k])@ == entry_line(
                    response.artists.items[k].uri@,
                    response.artists.items[k].name@,
                ),
        decreases response.artists.items.len() - i,
    {
        lines.push(show_artist(&response.artists.items[i]));
        i += 1;
    }
    lines
}

/// The line that shows what is playing.
pub fn show_current_track(item: &CurrentlyPlayingItem) -> (line: String)
    ensures
        line@ == current_track_line(item.deep_view()),
{
    let mut names: Vec<String> = Vec::new();
    let mut i: usize = 0;
    while i < item.artists.len()
        invariant
            i <= item.artists.len(),
            names.len() == i,
            forall|k: int| 0 <= k < i ==> (#[trigger] names[k])@ == item.artists[k].name@,
        decreases item.artists.len() - i,
    {
        names.push(item.artists[i].name.clone());
        i += 1;
    }
    assert(names.deep_view() =~= artist_names(item.deep_view().artists));
    let artists = join(&names, ", ");
    let mut line = item.name.clone();
    line.append(" [");
    match &item.album {
        Some(album) => line.append(album.name.as_str()),
        None => line.append("unknown"),
    }
    line.append("] - ");
    line.append(artists.as_str());
    line
}

} // verus!
