//! The records the Web API answers with.
//!
//! Each record has a model, reached with `deep_view()`, that holds its strings as
//! sequences of characters, and a [`Decode`] impl that says which JSON values it is read
//! from. A member that the record does not name is ignored.

use crate::decode::{
    decode_field, decode_list_field, decode_optional_field, optional_record_at, record_at,
    records_at, Decode,
};
use crate::json::{Json, JsonView};
use vstd::prelude::*;

verus! {

/// An artist.
#[derive(Debug, Clone, PartialEq, Eq)]
pub struct Artist {
    pub id: String,
    pub href: String,
    pub name: String,
    pub uri: String,
}

/// Mathematical model of [`Artist`].
pub struct ArtistView {
    pub id: Seq<char>,
    pub href: Seq<char>,
    pub name: Seq<char>,
    pub uri: Seq<char>,
}

impl DeepView for Artist {
    type V = ArtistView;

    open spec fn deep_view(&self) -> ArtistView {
        ArtistView { id: self.id@, href: self.href@, name: self.name@, uri: self.uri@ }
    }
}

impl Decode for Artist {
    open spec fn model(json: JsonView) -> Option<ArtistView> {
        match (
            json.text_at("id"@),
            json.text_at("href"@),
            json.text_at("name"@),
            json.text_at("uri"@),
        ) {
            (Some(id), Some(href), Some(name), Some(uri)) => Some(
                ArtistView { id, href, name, uri },
            ),
            _ => None,
        }
    }

    fn decode(json: &Json) -> (r: Option<Artist>) {
        let id = json.string_field("id")?;
        let href = json.string_field("href")?;
        let name = json.string_field("name")?;
        let uri = json.string_field("uri")?;
        Some(Artist { id, href, name, uri })
    }
}

/// An album and the artists it is by.
#[derive(Debug, Clone, PartialEq, Eq)]
pub struct Album {
    pub id: String,
    pub href: String,
    pub artists: Vec<Artist>,
    pub name: String,
    pub release_date: String,
    pub uri: String,
}

/// Mathematical model of [`Album`].
pub struct AlbumView {
    pub id: Seq<char>,
    pub href: Seq<char>,
    pub artists: Seq<ArtistView>,
    pub name: Seq<char>,
    pub release_date: Seq<char>,
    pub uri: Seq<char>,
}

impl DeepView for Album {
    type V = AlbumView;

    open spec fn deep_view(&self) -> AlbumView {
        AlbumView {
            id: self.id@,
            href: self.href@,
            artists: self.artists.deep_view(),
            name: self.name@,
            release_date: self.release_date@,
            uri: self.uri@,
        }
    }
}

impl Decode for Album {
    open spec fn model(json: JsonView) -> Option<AlbumView> {
        match (
            json.text_at("id"@),
            json.text_at("href"@),
            records_at::<Artist>(json, "artists"@),
            json.text_at("name"@),
            json.text_at("release_date"@),
            json.text_at("uri"@),
        ) {
            (
                Some(id),
                Some(href),
                Some(artists),
                Some(name),
                Some(release_date),
                Some(uri),
            ) => Some(AlbumView { id, href, artists, name, release_date, uri }),
            _ => None,
        }
    }

    fn decode(json: &Json) -> (r: Option<Album>) {
        let id = json.string_field("id")?;
        let href = json.string_field("href")?;
        let artists = decode_list_field::<Artist>(json, "artists")?;
        let name = json.string_field("name")?;
        let release_date = json.string_field("release_date")?;
        let uri = json.string_field("uri")?;
        Some(Album { id, href, artists, name, release_date, uri })
    }
}

/// A track of an album and the artists it is by.
#[derive(Debug, Clone, PartialEq, Eq)]
pub struct Track {
    pub id: String,
    pub href: String,
    pub artists: Vec<Artist>,
    pub name: String,
    pub disc_number: u32,
    pub track_number: u32,
    pub duration_ms: u32,
    pub uri: String,
}

/// Mathematical model of [`Track`].
pub struct TrackView {
    pub id: Seq<char>,
    pub href: Seq<char>,
    pub artists: Seq<ArtistView>,
    pub name: Seq<char>,
    pub disc_number: u32,
    pub track_number: u32,
    pub duration_ms: u32,
    pub uri: Seq<char>,
}

impl DeepView for Track {
    type V = TrackView;

    open spec fn deep_view(&self) -> TrackView {
        TrackView {
            id: self.id@,
            href: self.href@,
            artists: self.artists.deep_view(),
            name: self.name@,
            disc_number: self.disc_number,
            track_number: self.track_number,
            duration_ms: self.duration_ms,
            uri: self.uri@,
        }
    }
}

impl Decode for Track {
    open spec fn model(json: JsonView) -> Option<TrackView> {
        match (
            json.text_at("id"@),
            json.text_at("href"@),
            records_at::<Artist>(json, "artists"@),
            json.text_at("name"@),
            json.u32_at("disc_number"@),
            json.u32_at("track_number"@),
            json.u32_at("duration_ms"@),
            json.text_at("uri"@),
        ) {
            (
                Some(id),
                Some(href),
                Some(artists),
                Some(name),
                Some(disc_number),
                Some(track_number),
                Some(duration_ms),
                Some(uri),
            ) => Some(
                TrackView {
                    id,
                    href,
                    artists,
                    name,
                    disc_number,
                    track_number,
                    duration_ms,
                    uri,
                },
            ),
            _ => None,
        }
    }

    fn decode(json: &Json) -> (r: Option<Track>) {
        let id = json.string_field("id")?;
        let href = json.string_field("href")?;
        let artists = decode_list_field::<Artist>(json, "artists")?;
        let name = json.string_field("name")?;
        let disc_number = json.u32_field("disc_number")?;
        let track_number = json.u32_field("track_number")?;
        let duration_ms = json.u32_field("duration_ms")?;
        let uri = json.string_field("uri")?;
        Some(Track { id, href, artists, name, disc_number, track_number, duration_ms, uri })
    }
}

/// One window of a longer list.
///
/// The API is expected to send no more items than `limit`, and no window that reaches
/// past `total`. Decoding does not enforce either: [`Paging::within_limit`] and
/// [`Paging::within_total`] test them.
#[derive(Debug, Clone, PartialEq, Eq)]
pub struct Paging<T> {
    pub href: String,
    pub items: Vec<T>,
    pub limit: u32,
    pub offset: u32,
    pub total: u32,
    pub next: Option<String>,
    pub previous: Option<String>,
}

/// Mathematical model of [`Paging`].
pub struct PagingView<V> {
    pub href: Seq<char>,
    pub items: Seq<V>,
    pub limit: u32,
    pub offset: u32,
    pub total: u32,
    pub next: Option<Seq<char>>,
    pub previous: Option<Seq<char>>,
}

impl<V> PagingView<V> {
    /// The window holds no more items than its declared limit.
    pub open spec fn within_limit(self) -> bool {
        self.items.len() <= self.limit
    }

    /// The window ends no later than the whole list does.
    pub open spec fn within_total(self) -> bool {
        self.offset + self.items.len() <= self.total
    }
}

impl<T: DeepView> DeepView for Paging<T> {
    type V = PagingView<T::V>;

    open spec fn deep_view(&self) -> PagingView<T::V> {
        PagingView {
            href: self.href@,
            items: self.items.deep_view(),
            limit: self.limit,
            offset: self.offset,
            total: self.total,
            next: self.next.deep_view(),
            previous: self.previous.deep_view(),
        }
    }
}

impl<T: DeepView> Paging<T> {
    /// Tests that the window holds no more items than its declared limit.
    pub fn within_limit(&self) -> (ok: bool)
        ensures
            ok == self.deep_view().within_limit(),
    {
        self.items.len() <= self.limit as usize
    }

    /// Tests that the window ends no later than the whole list does.
    pub fn within_total(&self) -> (ok: bool)
        ensures
            ok == self.deep_view().within_total(),
    {
        self.offset <= self.total && self.items.len() <= (self.total - self.offset) as usize
    }
}

impl<T: Decode> Decode for Paging<T> {
    open spec fn model(json: JsonView) -> Option<PagingView<T::V>> {
        match (
            json.text_at("href"@),
            records_at::<T>(json, "items"@),
            json.u32_at("limit"@),
            json.u32_at("offset"@),
            json.u32_at("total"@),
            json.optional_text_at("next"@),
            json.optional_text_at("previous"@),
        ) {
            (
                Some(href),
                Some(items),
                Some(limit),
                Some(offset),
                Some(total),
                Some(next),
                Some(previous),
            ) => Some(PagingView { href, items, limit, offset, total, next, previous }),
            _ => None,
        }
    }

    fn decode(json: &Json) -> (r: Option<Paging<T>>) {
        let href = json.string_field("href")?;
        let items = decode_list_field::<T>(json, "items")?;
        let limit = json.u32_field("limit")?;
        let offset = json.u32_field("offset")?;
        let total = json.u32_field("total")?;
        let next = json.optional_string_field("next")?;
        let previous = json.optional_string_field("previous")?;
        Some(Paging { href, items, limit, offset, total, next, previous })
    }
}

/// A page holds the items that the document lists, as many and in the same order, and
/// the limit that the document declares. So the page is within its limit exactly where
/// the document lists no more items than the limit it declares: reading a page neither
/// mends nor breaks that.
pub proof fn page_holds_what_the_document_lists<T: Decode>(json: JsonView)
    requires
        Paging::<T>::model(json) is Some,
    ensures
        ({
            let page = Paging::<T>::model(json)->0;
            &&& json.member("items"@) matches Some(JsonView::Array(listed)) && {
                &&& page.items.len() == listed.len()
                &&& forall|i: int|
                    0 <= i < listed.len() ==> T::model(#[trigger] listed[i]) == Some(
                        page.items[i],
                    )
                &&& json.u32_at("limit"@) == Some(page.limit)
                &&& page.within_limit() <==> listed.len() <= page.limit
            }
        }),
{
}

/// What a search for albums found.
#[derive(Debug, Clone, PartialEq, Eq)]
pub struct SearchAlbumsResponse {
    pub albums: Paging<Album>,
}

/// Mathematical model of [`SearchAlbumsResponse`].
pub struct SearchAlbumsResponseView {
    pub albums: PagingView<AlbumView>,
}

impl DeepView for SearchAlbumsResponse {
    type V = SearchAlbumsResponseView;

    open spec fn deep_view(&self) -> SearchAlbumsResponseView {
        SearchAlbumsResponseView { albums: self.albums.deep_view() }
    }
}

impl Decode for SearchAlbumsResponse {
    open spec fn model(json: JsonView) -> Option<SearchAlbumsResponseView> {
        match record_at::<Paging<Album>>(json, "albums"@) {
            Some(albums) => Some(SearchAlbumsResponseView { albums }),
            None => None,
        }
    }

    fn decode(json: &Json) -> (r: Option<SearchAlbumsResponse>) {
        let albums = decode_field::<Paging<Album>>(json, "albums")?;
        Some(SearchAlbumsResponse { albums })
    }
}

/// What a search for artists found.
#[derive(Debug, Clone, PartialEq, Eq)]
pub struct SearchArtistsResponse {
    pub artists: Paging<Artist>,
}

/// Mathematical model of [`SearchArtistsResponse`].
pub struct SearchArtistsResponseView {
    pub artists: PagingView<ArtistView>,
}

impl DeepView for SearchArtistsResponse {
    type V = SearchArtistsResponseView;

    open spec fn deep_view(&self) -> SearchArtistsResponseView {
        SearchArtistsResponseView { artists: self.artists.deep_view() }
    }
}

impl Decode for SearchArtistsResponse {
    open spec fn model(json: JsonView) -> Option<SearchArtistsResponseView> {
        match record_at::<Paging<Artist>>(json, "artists"@) {
            Some(artists) => Some(SearchArtistsResponseView { artists }),
            None => None,
        }
    }

    fn decode(json: &Json) -> (r: Option<SearchArtistsResponse>) {
        let artists = decode_field::<Paging<Artist>>(json, "artists")?;
        Some(SearchArtistsResponse { artists })
    }
}

/// The tracks of an album, one page of them.
pub type ListTracksResponse = Paging<Track>;

/// The devices playback can run on.
#[derive(Debug, Clone, PartialEq, Eq)]
pub struct ListDevicesResponse {
    pub devices: Vec<Device>,
}

/// Mathematical model of [`ListDevicesResponse`].
pub struct ListDevicesResponseView {
    pub devices: Seq<DeviceView>,
}

impl DeepView for ListDevicesResponse {
    type V = ListDevicesResponseView;

    open spec fn deep_view(&self) -> ListDevicesResponseView {
        ListDevicesResponseView { devices: self.devices.deep_view() }
    }
}

impl Decode for ListDevicesResponse {
    open spec fn model(json: JsonView) -> Option<ListDevicesResponseView> {
        match records_at::<Device>(json, "devices"@) {
            Some(devices) => Some(ListDevicesResponseView { devices }),
            None => None,
        }
    }

    fn decode(json: &Json) -> (r: Option<ListDevicesResponse>) {
        let devices = decode_list_field::<Device>(json, "devices")?;
        Some(ListDevicesResponse { devices })
    }
}

/// A playback target. In JSON its kind is the member `type`.
#[derive(Debug, Clone, PartialEq, Eq)]
pub struct Device {
    pub id: String,
    pub is_active: bool,
    pub is_private_session: bool,
    pub is_restricted: bool,
    pub name: String,
    pub device_type: String,
    pub volume_percent: u32,
}

/// Mathematical model of [`Device`].
pub struct DeviceView {
    pub id: Seq<char>,
    pub is_active: bool,
    pub is_private_session: bool,
    pub is_restricted: bool,
    pub name: Seq<char>,
    pub device_type: Seq<char>,
    pub volume_percent: u32,
}

impl DeepView for Device {
    type V = DeviceView;

    open spec fn deep_view(&self) -> DeviceView {
        DeviceView {
            id: self.id@,
            is_active: self.is_active,
            is_private_session: self.is_private_session,
            is_restricted: self.is_restricted,
            name: self.name@,
            device_type: self.device_type@,
            volume_percent: self.volume_percent,
        }
    }
}

impl Decode for Device {
    open spec fn model(json: JsonView) -> Option<DeviceView> {
        match (
            json.text_at("id"@),
            json.bool_at("is_active"@),
            json.bool_at("is_private_session"@),
            json.bool_at("is_restricted"@),
            json.text_at("name"@),
            json.text_at("type"@),
            json.u32_at("volume_percent"@),
        ) {
            (
                Some(id),
                Some(is_active),
                Some(is_private_session),
                Some(is_restricted),
                Some(name),
                Some(device_type),
                Some(volume_percent),
            ) => Some(
                DeviceView {
                    id,
                    is_active,
                    is_private_session,
                    is_restricted,
                    name,
                    device_type,
                    volume_percent,
                },
            ),
            _ => None,
        }
    }

    fn decode(json: &Json) -> (r: Option<Device>) {
        let id = json.string_field("id")?;
        let is_active = json.bool_field("is_active")?;
        let is_private_session = json.bool_field("is_private_session")?;
        let is_restricted = json.bool_field("is_restricted")?;
        let name = json.string_field("name")?;
        let device_type = json.string_field("type")?;
        let volume_percent = json.u32_field("volume_percent")?;
        Some(
            Device {
                id,
                is_active,
                is_private_session,
                is_restricted,
                name,
                device_type,
                volume_percent,
            },
        )
    }
}

/// The state of playback: whether something is playing, and what.
#[derive(Debug, Clone, PartialEq, Eq)]
pub struct CurrentlyPlayingTrackResponse {
    pub timestamp: u64,
    pub is_playing: bool,
    pub currently_playing_type: String,
    pub item: CurrentlyPlayingItem,
}

/// Mathematical model of [`CurrentlyPlayingTrackResponse`].
pub struct CurrentlyPlayingTrackResponseView {
    pub timestamp: u64,
    pub is_playing: bool,
    pub currently_playing_type: Seq<char>,
    pub item: CurrentlyPlayingItemView,
}

impl DeepView for CurrentlyPlayingTrackResponse {
    type V = CurrentlyPlayingTrackResponseView;

    open spec fn deep_view(&self) -> CurrentlyPlayingTrackResponseView {
        CurrentlyPlayingTrackResponseView {
            timestamp: self.timestamp,
            is_playing: self.is_playing,
            currently_playing_type: self.currently_playing_type@,
            item: self.item.deep_view(),
        }
    }
}

impl Decode for CurrentlyPlayingTrackResponse {
    open spec fn model(json: JsonView) -> Option<CurrentlyPlayingTrackResponseView> {
        match (
            json.u64_at("timestamp"@),
            json.bool_at("is_playing"@),
            json.text_at("currently_playing_type"@),
            record_at::<CurrentlyPlayingItem>(json, "item"@),
        ) {
            (Some(timestamp), Some(is_playing), Some(currently_playing_type), Some(item)) => Some(
                CurrentlyPlayingTrackResponseView {
                    timestamp,
                    is_playing,
                    currently_playing_type,
                    item,
                },
            ),
            _ => None,
        }
    }

    fn decode(json: &Json) -> (r: Option<CurrentlyPlayingTrackResponse>) {
        let timestamp = json.u64_field("timestamp")?;
        let is_playing = json.bool_field("is_playing")?;
        let currently_playing_type = json.string_field("currently_playing_type")?;
        let item = decode_field::<CurrentlyPlayingItem>(json, "item")?;
        Some(CurrentlyPlayingTrackResponse { timestamp, is_playing, currently_playing_type, item })
    }
}

/// What is playing. The album may be left out or `null`.
#[derive(Debug, Clone, PartialEq, Eq)]
pub struct CurrentlyPlayingItem {
    pub album: Option<Album>,
    pub artists: Vec<Artist>,
    pub name: String,
}

/// Mathematical model of [`CurrentlyPlayingItem`].
pub struct CurrentlyPlayingItemView {
    pub album: Option<AlbumView>,
    pub artists: Seq<ArtistView>,
    pub name: Seq<char>,
}

impl DeepView for CurrentlyPlayingItem {
    type V = CurrentlyPlayingItemView;

    open spec fn deep_view(&self) -> CurrentlyPlayingItemView {
        CurrentlyPlayingItemView {
            album: self.album.deep_view(),
            artists: self.artists.deep_view(),
            name: self.name@,
        }
    }
}

impl Decode for CurrentlyPlayingItem {
    open spec fn model(json: JsonView) -> Option<CurrentlyPlayingItemView> {
        match (
            optional_record_at::<Album>(json, "album"@),
            records_at::<Artist>(json, "artists"@),
            json.text_at("name"@),
        ) {
            (Some(album), Some(artists), Some(name)) => Some(
                CurrentlyPlayingItemView { album, artists, name },
            ),
            _ => None,
        }
    }

    fn decode(json: &Json) -> (r: Option<CurrentlyPlayingItem>) {
        let album = decode_optional_field::<Album>(json, "album")?;
        let artists = decode_list_field::<Artist>(json, "artists")?;
        let name = json.string_field("name")?;
        Some(CurrentlyPlayingItem { album, artists, name })
    }
}

/// What is playing is read with its album absent where the document says `null` for it
/// or leaves it out, and with its artists in the order in which the document lists them.
pub proof fn item_keeps_artist_order_and_absent_album(json: JsonView)
    requires
        CurrentlyPlayingItem::model(json) is Some,
    ensures
        ({
            let item = CurrentlyPlayingItem::model(json)->0;
            &&& json.member("artists"@) matches Some(JsonView::Array(listed)) && {
                &&& item.artists.len() == listed.len()
                &&& forall|i: int|
                    0 <= i < listed.len() ==> Artist::model(#[trigger] listed[i]) == Some(
                        item.artists[i],
                    )
            }
            &&& (json.member("album"@) is None || json.member("album"@) == Some(JsonView::Null))
                ==> item.album is None
        }),
{
}

/// The playlists of the current user, one page of them.
pub type GetPlaylistsResponse = Paging<Playlist>;

/// A playlist of the current user.
#[derive(Debug, Clone, PartialEq, Eq)]
pub struct Playlist {
    pub id: String,
    pub description: String,
    pub href: String,
    pub name: String,
    pub tracks: PlaylistTracksRef,
    pub uri: String,
}

/// Mathematical model of [`Playlist`].
pub struct PlaylistView {
    pub id: Seq<char>,
    pub description: Seq<char>,
    pub href: Seq<char>,
    pub name: Seq<char>,
    pub tracks: PlaylistTracksRefView,
    pub uri: Seq<char>,
}

impl DeepView for Playlist {
    type V = PlaylistView;

    open spec fn deep_view(&self) -> PlaylistView {
        PlaylistView {
            id: self.id@,
            description: self.description@,
            href: self.href@,
            name: self.name@,
            tracks: self.tracks.deep_view(),
            uri: self.uri@,
        }
    }
}

impl Decode for Playlist {
    open spec fn model(json: JsonView) -> Option<PlaylistView> {
        match (
            json.text_at("id"@),
            json.text_at("description"@),
            json.text_at("href"@),
            json.text_at("name"@),
            record_at::<PlaylistTracksRef>(json, "tracks"@),
            json.text_at("uri"@),
        ) {
            (Some(id), Some(description), Some(href), Some(name), Some(tracks), Some(uri)) => Some(
                PlaylistView { id, description, href, name, tracks, uri },
            ),
            _ => None,
        }
    }

    fn decode(json: &Json) -> (r: Option<Playlist>) {
        let id = json.string_field("id")?;
        let description = json.string_field("description")?;
        let href = json.string_field("href")?;
        let name = json.string_field("name")?;
        let tracks = decode_field::<PlaylistTracksRef>(json, "tracks")?;
        let uri = json.string_field("uri")?;
        Some(Playlist { id, description, href, name, tracks, uri })
    }
}

/// Where a playlist's tracks are listed, and how many there are.
#[derive(Debug, Clone, PartialEq, Eq)]
pub struct PlaylistTracksRef {
    pub href: String,
    pub total: u32,
}

/// Mathematical model of [`PlaylistTracksRef`].
pub struct PlaylistTracksRefView {
    pub href: Seq<char>,
    pub total: u32,
}

impl DeepView for PlaylistTracksRef {
    type V = PlaylistTracksRefView;

    open spec fn deep_view(&self) -> PlaylistTracksRefView {
        PlaylistTracksRefView { href: self.href@, total: self.total }
    }
}

impl Decode for PlaylistTracksRef {
    open spec fn model(json: JsonView) -> Option<PlaylistTracksRefView> {
        match (json.text_at("href"@), json.u32_at("total"@)) {
            (Some(href), Some(total)) => Some(PlaylistTracksRefView { href, total }),
            _ => None,
        }
    }

    fn decode(json: &Json) -> (r: Option<PlaylistTracksRef>) {
        let href = json.string_field("href")?;
        let total = json.u32_field("total")?;
        Some(PlaylistTracksRef { href, total })
    }
}

/// The envelope in which the API reports an error.
#[derive(Debug, Clone, PartialEq, Eq)]
pub struct ErrorResponse {
    pub error: Error,
}

/// Mathematical model of [`ErrorResponse`].
pub struct ErrorResponseView {
    pub error: ErrorView,
}

impl DeepView for ErrorResponse {
    type V = ErrorResponseView;

    open spec fn deep_view(&self) -> ErrorResponseView {
        ErrorResponseView { error: self.error.deep_view() }
    }
}

impl Decode for ErrorResponse {
    open spec fn model(json: JsonView) -> Option<ErrorResponseView> {
        match record_at::<Error>(json, "error"@) {
            Some(error) => Some(ErrorResponseView { error }),
            None => None,
        }
    }

    fn decode(json: &Json) -> (r: Option<ErrorResponse>) {
        let error = decode_field::<Error>(json, "error")?;
        Some(ErrorResponse { error })
    }
}

/// An error as the API words it.
#[derive(Debug, Clone, PartialEq, Eq)]
pub struct Error {
    pub status: u32,
    pub message: String,
}

/// Mathematical model of [`Error`].
pub struct ErrorView {
    pub status: u32,
    pub message: Seq<char>,
}

impl DeepView for Error {
    type V = ErrorView;

    open spec fn deep_view(&self) -> ErrorView {
        ErrorView { status: self.status, message: self.message@ }
    }
}

impl Decode for Error {
    open spec fn model(json: JsonView) -> Option<ErrorView> {
        match (json.u32_at("status"@), json.text_at("message"@)) {
            (Some(status), Some(message)) => Some(ErrorView { status, message }),
            _ => None,
        }
    }

    fn decode(json: &Json) -> (r: Option<Error>) {
        let status = json.u32_field("status")?;
        let message = json.string_field("message")?;
        Some(Error { status, message })
    }
}

/// The tokens that the accounts service hands out when a token is refreshed.
#[derive(Debug, Clone, PartialEq, Eq)]
pub struct TokenResponse {
    pub access_token: String,
    pub refresh_token: String,
}

/// Mathematical model of [`TokenResponse`].
pub struct TokenResponseView {
    pub access_token: Seq<char>,
    pub refresh_token: Seq<char>,
}

impl DeepView for TokenResponse {
    type V = TokenResponseView;

    open spec fn deep_view(&self) -> TokenResponseView {
        TokenResponseView {
            access_token: self.access_token@,
            refresh_token: self.refresh_token@,
        }
    }
}

impl Decode for TokenResponse {
    open spec fn model(json: JsonView) -> Option<TokenResponseView> {
        match (json.text_at("access_token"@), json.text_at("refresh_token"@)) {
            (Some(access_token), Some(refresh_token)) => Some(
                TokenResponseView { access_token, refresh_token },
            ),
            _ => None,
        }
    }

    fn decode(json: &Json) -> (r: Option<TokenResponse>) {
        let access_token = json.string_field("access_token")?;
        let refresh_token = json.string_field("refresh_token")?;
        Some(TokenResponse { access_token, refresh_token })
    }
}

} // verus!
