//! Models of the Lavalink REST and WebSocket API.
//!
//! These are the plain values that the player logic reads; the JSON encoding of
//! them lives with the network client.

use std::collections::HashMap;
use vstd::prelude::*;

verus! {

/// A JSON value carried unchanged through the models (plugin and user data).
#[verifier::external_type_specification]
#[verifier::external_body]
pub struct ExJsonValue(serde_json::Value);

/// The kind of message received from the Lavalink server.
#[derive(Debug, Clone, Copy, PartialEq, Eq, Structural)]
pub enum MessageKind {
    /// Dispatched when you successfully connect to the Lavalink node.
    Ready,
    /// Dispatched every x seconds with the latest player state.
    PlayerUpdate,
    /// Dispatched when the node sends stats once per minute.
    Stats,
    /// Dispatched when player or voice events occur.
    Event,
}

/// Dispatched when you successfully connect to the Lavalink node.
#[derive(Debug, Clone)]
pub struct Ready {
    /// Whether this session was resumed.
    pub resumed: bool,
    /// The Lavalink session id of this connection.
    pub session_id: String,
}

/// Dispatched every x seconds with the latest player state.
#[derive(Debug, Clone)]
pub struct PlayerUpdate {
    /// The guild id of the player.
    pub guild_id: String,
    /// The player state.
    pub state: PlayerState,
}

/// State of a player on the Lavalink node.
#[derive(Debug, Clone, Copy)]
pub struct PlayerState {
    /// Unix timestamp in milliseconds.
    pub time: u64,
    /// The position of the track in milliseconds.
    pub position: u64,
    /// Whether Lavalink is connected to the voice gateway.
    pub connected: bool,
    /// The ping of the node to the Discord voice server in milliseconds. (-1 if not connected)
    pub ping: i32,
}

/// Memory statistics of the Lavalink node.
#[derive(Debug, Clone, Copy)]
pub struct Memory {
    /// The amount of free memory in bytes.
    pub free: u64,
    /// The amount of used memory in bytes.
    pub used: u64,
    /// The amount of allocated memory in bytes.
    pub allocated: u64,
    /// The amount of reservable memory in bytes.
    pub reservable: u64,
}

/// Frame statistics of the Lavalink node.
#[derive(Debug, Clone, Copy)]
pub struct FrameStats {
    /// The amount of frames sent to Discord.
    pub sent: u32,
    /// The amount of frames that were nulled.
    pub nulled: u32,
    /// The difference between sent frames and the expected amount of frames.
    pub deficit: u32,
}

/// Information about a track.
#[derive(Debug, Clone)]
pub struct TrackInfo {
    /// The track identifier.
    pub identifier: String,
    /// Whether the track is seekable.
    pub is_seekable: bool,
    /// The track author.
    pub author: String,
    /// The track length in milliseconds.
    pub length: u64,
    /// Whether the track is a stream.
    pub is_stream: bool,
    /// The track position in milliseconds.
    pub position: u64,
    /// The track title.
    pub title: String,
    /// The track uri.
    pub uri: Option<String>,
    /// The track artwork url.
    pub artwork_url: Option<String>,
    /// The track ISRC.
    pub isrc: Option<String>,
    /// The track source name.
    pub source_name: Option<String>,
}

/// Track object.
#[derive(Debug, Clone)]
pub struct Track {
    /// The base64 encoded track data.
    pub encoded: String,
    /// Info about the track.
    pub info: TrackInfo,
    /// Additional track info provided by plugins.
    pub plugin_info: HashMap<String, serde_json::Value>,
    /// Additional track data provided via the update player endpoint.
    pub user_data: HashMap<String, serde_json::Value>,
}

/// Reasons a track has ended.
#[derive(Debug, Clone, Copy, PartialEq, Eq, Structural)]
pub enum TrackEndReason {
    /// The track finished playing. (May Start Next? Yes)
    Finished,
    /// The track failed to load. (May Start Next? Yes)
    LoadFailed,
    /// The track was stopped. (May Start Next? No)
    Stopped,
    /// The track was replaced. (May Start Next? No)
    Replaced,
    /// The track was cleaned up. (May Start Next? No)
    Cleanup,
}

impl TrackEndReason {
    /// Check if the next track should start.
    pub fn may_start_next(&self) -> (r: bool)
        ensures
            r == (*self == TrackEndReason::Finished || *self == TrackEndReason::LoadFailed),
    {
        match self {
            Self::Finished | Self::LoadFailed => true,
            _ => false,
        }
    }
}

/// The severity of an exception.
#[derive(Debug, Clone, Copy, PartialEq, Eq, Structural)]
pub enum Severity {
    /// The cause is known and expected.
    Common,
    /// The cause might not be exactly known, but is possibly caused by outside factors.
    Suspicious,
    /// The probable cause is an issue with the library, or the cause cannot be told.
    Fault,
}

/// An exception thrown by the Lavalink node.
#[derive(Debug, Clone)]
pub struct Exception {
    /// The message of the exception.
    pub message: Option<String>,
    /// The severity of the exception.
    pub severity: Severity,
    /// The cause of the exception.
    pub cause: String,
}

/// An error answered by the REST API.
#[derive(Debug, Clone)]
pub struct Error {
    /// The timestamp of the error in milliseconds since the Unix epoch.
    pub timestamp: i64,
    /// The HTTP status code.
    pub status: u32,
    /// The HTTP status code message.
    pub error: String,
    /// The stack trace of the error when trace=true as query param has been sent.
    pub trace: Option<String>,
    /// The error message.
    pub message: String,
    /// The request path.
    pub path: String,
}

/// A result from the REST API: a value or an error answered by the node.
#[derive(Debug, Clone)]
pub enum LavalinkResult<T> {
    /// A successful result.
    Success(T),
    /// An error result.
    Failure(Error),
}

impl<T> LavalinkResult<T> {
    /// Converts the answer into a [Result].
    pub fn into_result(self) -> (r: Result<T, Error>)
        ensures
            r == (match self {
                LavalinkResult::Success(v) => Ok::<T, Error>(v),
                LavalinkResult::Failure(e) => Err::<T, Error>(e),
            }),
    {
        match self {
            LavalinkResult::Success(value) => Ok(value),
            LavalinkResult::Failure(err) => Err(err),
        }
    }
}

/// Information about a playlist.
#[derive(Debug, Clone)]
pub struct PlaylistInfo {
    /// The name of the playlist.
    pub name: String,
    /// The selected track of the playlist. (-1 if no track is selected)
    pub selected_track: i32,
}

/// The result of a load playlist operation.
#[derive(Debug, Clone)]
pub struct LoadResultPlaylist {
    /// The info of the playlist.
    pub info: PlaylistInfo,
    /// Additional playlist info provided by plugins.
    pub plugin_info: HashMap<String, serde_json::Value>,
    /// The tracks of the playlist.
    pub tracks: Vec<Track>,
}

/// The result of a load operation.
#[derive(Debug, Clone)]
pub enum LoadResult {
    /// A track has been loaded.
    Track(Track),
    /// A playlist has been loaded.
    Playlist(LoadResultPlaylist),
    /// A search result has been loaded.
    Search(Vec<Track>),
    /// There has been no matches for your identifier.
    Empty,
    /// Loading has failed with an error.
    Error(Exception),
}

/// The kind of load result.
#[derive(Debug, Clone, Copy, PartialEq, Eq, Structural)]
pub enum LoadResultKind {
    /// A track has been loaded.
    Track,
    /// A playlist has been loaded.
    Playlist,
    /// A search result has been loaded.
    Search,
    /// There has been no matches for your identifier.
    Empty,
    /// Loading has failed with an error.
    Error,
}

/// The kind of a load result, as a spec function.
pub open spec fn load_result_kind(r: LoadResult) -> LoadResultKind {
    match r {
        LoadResult::Track(_) => LoadResultKind::Track,
        LoadResult::Playlist(_) => LoadResultKind::Playlist,
        LoadResult::Search(_) => LoadResultKind::Search,
        LoadResult::Empty => LoadResultKind::Empty,
        LoadResult::Error(_) => LoadResultKind::Error,
    }
}

impl LoadResult {
    /// Get the kind of load result.
    pub fn kind(&self) -> (r: LoadResultKind)
        ensures
            r == load_result_kind(*self),
    {
        match self {
            LoadResult::Track(_) => LoadResultKind::Track,
            LoadResult::Playlist(_) => LoadResultKind::Playlist,
            LoadResult::Search(_) => LoadResultKind::Search,
            LoadResult::Empty => LoadResultKind::Empty,
            LoadResult::Error(_) => LoadResultKind::Error,
        }
    }

    /// Check if the result is a track.
    pub fn is_track(&self) -> (r: bool)
        ensures
            r == (*self is Track),
    {
        matches!(self, Self::Track(_))
    }

    /// Check if the result is a playlist.
    pub fn is_playlist(&self) -> (r: bool)
        ensures
            r == (*self is Playlist),
    {
        matches!(self, Self::Playlist(_))
    }

    /// Check if the result is a search.
    pub fn is_search(&self) -> (r: bool)
        ensures
            r == (*self is Search),
    {
        matches!(self, Self::Search(_))
    }

    /// Check if the result is empty.
    pub fn is_empty(&self) -> (r: bool)
        ensures
            r == (*self is Empty),
    {
        matches!(self, Self::Empty)
    }

    /// Check if the result is an error.
    pub fn is_error(&self) -> (r: bool)
        ensures
            r == (*self is Error),
    {
        matches!(self, Self::Error(_))
    }

    /// Convert the result to a track.
    pub fn to_track(self) -> (r: Option<Track>)
        ensures
            r == (match self {
                LoadResult::Track(t) => Some(t),
                _ => None,
            }),
    {
        match self {
            LoadResult::Track(track) => Some(track),
            _ => None,
        }
    }

    /// Convert the result to a playlist.
    pub fn to_playlist(self) -> (r: Option<LoadResultPlaylist>)
        ensures
            r == (match self {
                LoadResult::Playlist(p) => Some(p),
                _ => None,
            }),
    {
        match self {
            LoadResult::Playlist(playlist) => Some(playlist),
            _ => None,
        }
    }

    /// Convert the result to a search.
    pub fn to_search(self) -> (r: Option<Vec<Track>>)
        ensures
            r == (match self {
                LoadResult::Search(t) => Some(t),
                _ => None,
            }),
    {
        match self {
            LoadResult::Search(tracks) => Some(tracks),
            _ => None,
        }
    }

    /// Convert the result to an error.
    pub fn to_error(self) -> (r: Option<Exception>)
        ensures
            r == (match self {
                LoadResult::Error(e) => Some(e),
                _ => None,
            }),
    {
        match self {
            LoadResult::Error(exception) => Some(exception),
            _ => None,
        }
    }

    /// Get the track result.
    pub fn as_track(&self) -> (r: Option<&Track>)
        ensures
            r == (match *self {
                LoadResult::Track(t) => Some(&t),
                _ => None,
            }),
    {
        match self {
            LoadResult::Track(track) => Some(track),
            _ => None,
        }
    }

    /// Get the playlist result.
    pub fn as_playlist(&self) -> (r: Option<&LoadResultPlaylist>)
        ensures
            r == (match *self {
                LoadResult::Playlist(p) => Some(&p),
                _ => None,
            }),
    {
        match self {
            LoadResult::Playlist(playlist) => Some(playlist),
            _ => None,
        }
    }

    /// Get the search result.
    pub fn as_search(&self) -> (r: Option<&Vec<Track>>)
        ensures
            r == (match *self {
                LoadResult::Search(t) => Some(&t),
                _ => None,
            }),
    {
        match self {
            LoadResult::Search(tracks) => Some(tracks),
            _ => None,
        }
    }

    /// Get the error result.
    pub fn as_error(&self) -> (r: Option<&Exception>)
        ensures
            r == (match *self {
                LoadResult::Error(e) => Some(&e),
                _ => None,
            }),
    {
        match self {
            LoadResult::Error(exception) => Some(exception),
            _ => None,
        }
    }
}

/// Dispatched when a track starts playing.
#[derive(Debug, Clone)]
pub struct TrackStartEvent {
    /// The guild id.
    pub guild_id: String,
    /// The track that started playing.
    pub track: Track,
}

/// Dispatched when a track ends.
#[derive(Debug, Clone)]
pub struct TrackEndEvent {
    /// The guild id.
    pub guild_id: String,
    /// The track that ended playing.
    pub track: Track,
    /// The reason the track ended.
    pub reason: TrackEndReason,
}

/// Dispatched when a track throws an exception.
#[derive(Debug, Clone)]
pub struct TrackExceptionEvent {
    /// The guild id.
    pub guild_id: String,
    /// The track that threw the exception.
    pub track: Track,
    /// The occurred exception.
    pub exception: Exception,
}

/// Dispatched when a track gets stuck while playing.
#[derive(Debug, Clone)]
pub struct TrackStuckEvent {
    /// The guild id.
    pub guild_id: String,
    /// The track that got stuck.
    pub track: Track,
    /// The threshold in milliseconds that was exceeded.
    pub threshold_ms: u32,
}

/// Dispatched when an audio WebSocket (to Discord) is closed.
#[derive(Debug, Clone)]
pub struct WebSocketClosedEvent {
    /// The guild id.
    pub guild_id: String,
    /// The Discord close event code.
    pub code: u32,
    /// The close reason.
    pub reason: String,
    /// Whether the connection was closed by Discord.
    pub by_remote: bool,
}

/// Websocket event received from Lavalink server.
#[derive(Debug, Clone)]
pub enum Event {
    /// Dispatched when a track starts playing.
    TrackStart(TrackStartEvent),
    /// Dispatched when a track ends.
    TrackEnd(TrackEndEvent),
    /// Dispatched when a track throws an exception.
    TrackException(TrackExceptionEvent),
    /// Dispatched when a track gets stuck while playing.
    TrackStuck(TrackStuckEvent),
    /// Dispatched when an audio WebSocket (to Discord) is closed.
    WebSocketClosed(WebSocketClosedEvent),
}

/// The kind of event received from the Lavalink server.
#[derive(Debug, Clone, Copy, PartialEq, Eq, Structural)]
pub enum EventKind {
    /// Dispatched when a track starts playing.
    TrackStart,
    /// Dispatched when a track ends.
    TrackEnd,
    /// Dispatched when a track throws an exception.
    TrackException,
    /// Dispatched when a track gets stuck while playing.
    TrackStuck,
    /// Dispatched when an audio WebSocket (to Discord) is closed.
    WebSocketClosed,
}

/// The kind of an event.
pub open spec fn event_kind(e: Event) -> EventKind {
    match e {
        Event::TrackStart(_) => EventKind::TrackStart,
        Event::TrackEnd(_) => EventKind::TrackEnd,
        Event::TrackException(_) => EventKind::TrackException,
        Event::TrackStuck(_) => EventKind::TrackStuck,
        Event::WebSocketClosed(_) => EventKind::WebSocketClosed,
    }
}

/// The guild an event is about.
pub open spec fn event_guild_id(e: Event) -> String {
    match e {
        Event::TrackStart(x) => x.guild_id,
        Event::TrackEnd(x) => x.guild_id,
        Event::TrackException(x) => x.guild_id,
        Event::TrackStuck(x) => x.guild_id,
        Event::WebSocketClosed(x) => x.guild_id,
    }
}

impl Event {
    /// Get the kind of event.
    pub fn kind(&self) -> (r: EventKind)
        ensures
            r == event_kind(*self),
    {
        match self {
            Event::TrackStart(_) => EventKind::TrackStart,
            Event::TrackEnd(_) => EventKind::TrackEnd,
            Event::TrackException(_) => EventKind::TrackException,
            Event::TrackStuck(_) => EventKind::TrackStuck,
            Event::WebSocketClosed(_) => EventKind::WebSocketClosed,
        }
    }

    /// Get the guild id of the event.
    pub fn guild_id(&self) -> (r: &String)
        ensures
            *r == event_guild_id(*self),
    {
        match self {
            Event::TrackStart(e) => &e.guild_id,
            Event::TrackEnd(e) => &e.guild_id,
            Event::TrackException(e) => &e.guild_id,
            Event::TrackStuck(e) => &e.guild_id,
            Event::WebSocketClosed(e) => &e.guild_id,
        }
    }

    /// Get the track of the event.
    pub fn track(&self) -> (r: Option<&Track>)
        ensures
            r == (match *self {
                Event::TrackStart(e) => Some(&e.track),
                Event::TrackEnd(e) => Some(&e.track),
                Event::TrackException(e) => Some(&e.track),
                Event::TrackStuck(e) => Some(&e.track),
                Event::WebSocketClosed(_) => None,
            }),
    {
        match self {
            Event::TrackStart(e) => Some(&e.track),
            Event::TrackEnd(e) => Some(&e.track),
            Event::TrackException(e) => Some(&e.track),
            Event::TrackStuck(e) => Some(&e.track),
            _ => None,
        }
    }

    /// Check if the event is a track start.
    pub fn is_track_start(&self) -> (r: bool)
        ensures
            r == (*self is TrackStart),
    {
        matches!(self, Self::TrackStart(_))
    }

    /// Check if the event is a track end.
    pub fn is_track_end(&self) -> (r: bool)
        ensures
            r == (*self is TrackEnd),
    {
        matches!(self, Self::TrackEnd(_))
    }

    /// Check if the event is a track exception.
    pub fn is_track_exception(&self) -> (r: bool)
        ensures
            r == (*self is TrackException),
    {
        matches!(self, Self::TrackException(_))
    }

    /// Check if the event is a track stuck.
    pub fn is_track_stuck(&self) -> (r: bool)
        ensures
            r == (*self is TrackStuck),
    {
        matches!(self, Self::TrackStuck(_))
    }

    /// Check if the event is a websocket closed.
    pub fn is_websocket_closed(&self) -> (r: bool)
        ensures
            r == (*self is WebSocketClosed),
    {
        matches!(self, Self::WebSocketClosed(_))
    }

    /// Convert the event to track start.
    pub fn to_track_start(self) -> (r: Option<TrackStartEvent>)
        ensures
            r == (match self {
                Event::TrackStart(e) => Some(e),
                _ => None,
            }),
    {
        match self {
            Event::TrackStart(e) => Some(e),
            _ => None,
        }
    }

    /// Convert the event to track end.
    pub fn to_track_end(self) -> (r: Option<TrackEndEvent>)
        ensures
            r == (match self {
                Event::TrackEnd(e) => Some(e),
                _ => None,
            }),
    {
        match self {
            Event::TrackEnd(e) => Some(e),
            _ => None,
        }
    }

    /// Convert the event to track exception.
    pub fn to_track_exception(self) -> (r: Option<TrackExceptionEvent>)
        ensures
            r == (match self {
                Event::TrackException(e) => Some(e),
                _ => None,
            }),
    {
        match self {
            Event::TrackException(e) => Some(e),
            _ => None,
        }
    }

    /// Convert the event to track stuck.
    pub fn to_track_stuck(self) -> (r: Option<TrackStuckEvent>)
        ensures
            r == (match self {
                Event::TrackStuck(e) => Some(e),
                _ => None,
            }),
    {
        match self {
            Event::TrackStuck(e) => Some(e),
            _ => None,
        }
    }

    /// Convert the event to websocket closed.
    pub fn to_websocket_closed(self) -> (r: Option<WebSocketClosedEvent>)
        ensures
            r == (match self {
                Event::WebSocketClosed(e) => Some(e),
                _ => None,
            }),
    {
        match self {
            Event::WebSocketClosed(e) => Some(e),
            _ => None,
        }
    }

    /// Get the track start event.
    pub fn as_track_start(&self) -> (r: Option<&TrackStartEvent>)
        ensures
            r == (match *self {
                Event::TrackStart(e) => Some(&e),
                _ => None,
            }),
    {
        match self {
            Event::TrackStart(e) => Some(e),
            _ => None,
        }
    }

    /// Get the track end event.
    pub fn as_track_end(&self) -> (r: Option<&TrackEndEvent>)
        ensures
            r == (match *self {
                Event::TrackEnd(e) => Some(&e),
                _ => None,
            }),
    {
        match self {
            Event::TrackEnd(e) => Some(e),
            _ => None,
        }
    }

    /// Get the track exception event.
    pub fn as_track_exception(&self) -> (r: Option<&TrackExceptionEvent>)
        ensures
            r == (match *self {
                Event::TrackException(e) => Some(&e),
                _ => None,
            }),
    {
        match self {
            Event::TrackException(e) => Some(e),
            _ => None,
        }
    }

    /// Get the track stuck event.
    pub fn as_track_stuck(&self) -> (r: Option<&TrackStuckEvent>)
        ensures
            r == (match *self {
                Event::TrackStuck(e) => Some(&e),
                _ => None,
            }),
    {
        match self {
            Event::TrackStuck(e) => Some(e),
            _ => None,
        }
    }

    /// Get the websocket closed event.
    pub fn as_websocket_closed(&self) -> (r: Option<&WebSocketClosedEvent>)
        ensures
            r == (match *self {
                Event::WebSocketClosed(e) => Some(&e),
                _ => None,
            }),
    {
        match self {
            Event::WebSocketClosed(e) => Some(e),
            _ => None,
        }
    }
}

/// A Discord voice state, as Lavalink needs it to connect.
#[derive(Debug, Clone)]
pub struct VoiceState {
    /// The Discord voice token to authenticate with.
    pub token: String,
    /// The Discord voice endpoint to connect to.
    pub endpoint: String,
    /// The Discord voice session id to authenticate with.
    pub session_id: String,
}

impl VoiceState {
    /// Creates a voice state from its parts.
    pub fn new(token: &str, endpoint: &str, session_id: &str) -> (r: Self)
        ensures
            r.token@ == token@,
            r.endpoint@ == endpoint@,
            r.session_id@ == session_id@,
    {
        VoiceState { token: token.to_owned(), endpoint: endpoint.to_owned(), session_id: session_id.to_owned() }
    }
}

/// Update the player's track.
#[derive(Debug, Clone)]
pub struct UpdatePlayerTrack {
    /// The base64 encoded track to play. `Some(None)` stops the current track.
    pub encoded: Option<Option<String>>,
    /// The identifier of the track to play.
    pub identifier: Option<String>,
    /// Additional track data to be sent back in the [Track].
    pub user_data: Option<HashMap<String, serde_json::Value>>,
}

impl UpdatePlayerTrack {
    /// An update that changes nothing.
    pub fn empty() -> (r: Self)
        ensures
            r.encoded is None,
            r.identifier is None,
            r.user_data is None,
    {
        UpdatePlayerTrack { encoded: None, identifier: None, user_data: None }
    }

    /// Sets the encoded track to play.
    pub fn set_encoded(self, encoded: &str) -> (r: Self)
        ensures
            r.encoded matches Some(Some(e)) && e@ == encoded@,
            r.identifier == self.identifier,
            r.user_data == self.user_data,
    {
        UpdatePlayerTrack { encoded: Some(Some(encoded.to_owned())), ..self }
    }
}

/// Request to update the session.
#[derive(Debug, Clone, Copy, Default)]
pub struct UpdateSessionRequest {
    /// Whether resuming is enabled for this session or not.
    pub resuming: Option<bool>,
    /// The timeout in seconds. (default is 60s)
    pub timeout: Option<u32>,
}

/// Response to updating the session.
#[derive(Debug, Clone, Copy)]
pub struct UpdateSessionResponse {
    /// Whether resuming is enabled for this session or not.
    pub resuming: bool,
    /// The timeout in seconds. (default is 60s)
    pub timeout: u32,
}

/// Information about the Lavalink server.
#[derive(Debug, Clone)]
pub struct Info {
    /// The version of this Lavalink server.
    pub version: Version,
    /// The millisecond unix timestamp when this Lavalink jar was built.
    pub build_time: i64,
    /// The git information of this Lavalink server.
    pub git: Git,
    /// The JVM version this Lavalink server runs on.
    pub jvm: String,
    /// The Lavaplayer version being used by this server.
    pub lavaplayer: String,
    /// The enabled source managers for this server.
    pub source_managers: Vec<String>,
    /// The enabled filters for this server.
    pub filters: Vec<String>,
    /// The enabled plugins for this server.
    pub plugins: Vec<Plugin>,
}

/// Information about the Lavalink server's version.
#[derive(Debug, Clone)]
pub struct Version {
    /// The full version string of this Lavalink server.
    pub semver: String,
    /// The major version of this Lavalink server.
    pub major: u8,
    /// The minor version of this Lavalink server.
    pub minor: u8,
    /// The patch version of this Lavalink server.
    pub patch: u8,
    /// The pre-release version according to semver as a `.` separated list of identifiers.
    pub pre_release: Option<String>,
    /// The build metadata according to semver as a `.` separated list of identifiers.
    pub build: Option<String>,
}

/// Git information about the Lavalink server.
#[derive(Debug, Clone)]
pub struct Git {
    /// The commit this Lavalink server was built on.
    pub commit: String,
    /// The branch this Lavalink server was built on.
    pub branch: String,
    /// The millisecond unix timestamp for when the commit was created.
    pub commit_time: i64,
}

/// Information about a plugin in the Lavalink node.
#[derive(Debug, Clone)]
pub struct Plugin {
    /// The name of the plugin.
    pub name: String,
    /// The version of the plugin.
    pub version: String,
}

/// Represents a IP block with size and type.
#[derive(Debug, Clone)]
pub enum IPBlock {
    /// The ipv4 block type.
    Inet4(String),
    /// The ipv6 block type.
    Inet6(String),
}

/// The size text of an IP block.
pub open spec fn ip_block_inner(b: IPBlock) -> String {
    match b {
        IPBlock::Inet4(s) => s,
        IPBlock::Inet6(s) => s,
    }
}

impl IPBlock {
    /// Get the inner value.
    pub fn inner(&self) -> (r: &str)
        ensures
            r@ == ip_block_inner(*self)@,
    {
        match self {
            IPBlock::Inet4(inner) => inner.as_str(),
            IPBlock::Inet6(inner) => inner.as_str(),
        }
    }

    /// Convert the IP block into the inner value.
    pub fn into_inner(self) -> (r: String)
        ensures
            r == ip_block_inner(self),
    {
        match self {
            IPBlock::Inet4(inner) => inner,
            IPBlock::Inet6(inner) => inner,
        }
    }
}

/// Represents a failing address.
#[derive(Debug, Clone)]
pub struct FailingAddress {
    /// The failing address.
    pub failing_address: String,
    /// The timestamp when the address failed.
    pub failing_timestamp: i64,
    /// The timestamp when the address failed as a pretty string.
    pub failing_time: String,
}

/// Route planner using a rotating IP address.
#[derive(Debug, Clone)]
pub struct RotatingIpRoutePlanner {
    /// The ip block being used.
    pub ip_block: IPBlock,
    /// The failing addresses.
    pub failing_addresses: Vec<FailingAddress>,
    /// The number of rotations.
    pub rotate_index: String,
    /// The current offset in the block.
    pub ip_index: String,
    /// The current address being used.
    pub current_address: String,
}

/// Route planner using a nano IP address.
#[derive(Debug, Clone)]
pub struct NanoIpRoutePlanner {
    /// The ip block being used.
    pub ip_block: IPBlock,
    /// The failing addresses.
    pub failing_addresses: Vec<FailingAddress>,
    /// The current offset in the ip block.
    pub current_address_index: String,
}

/// Route planner using a rotating nano IP address.
#[derive(Debug, Clone)]
pub struct RotatingNanoIpRoutePlanner {
    /// The ip block being used.
    pub ip_block: IPBlock,
    /// The failing addresses.
    pub failing_addresses: Vec<FailingAddress>,
    /// The current offset in the ip block.
    pub current_address_index: String,
    /// The information in which /64 block ips are chosen. This number increases on each ban.
    pub block_index: String,
}

/// Route planner using a balancing IP address.
#[derive(Debug, Clone)]
pub struct BalancingIpRoutePlanner {
    /// The ip block being used.
    pub ip_block: IPBlock,
    /// The failing addresses.
    pub failing_addresses: Vec<FailingAddress>,
}

/// Object for the RoutePlanner API.
#[derive(Debug, Clone)]
pub enum RoutePlanner {
    /// IP address used is switched on ban.
    Rotating(RotatingIpRoutePlanner),
    /// IP address used is switched on clock update.
    Nano(NanoIpRoutePlanner),
    /// IP address used is switched on clock update, rotates to a different /64 block on ban.
    RotatingNano(RotatingNanoIpRoutePlanner),
    /// IP address used is selected at random per request.
    Balancing(BalancingIpRoutePlanner),
}

/// The kind of route planner.
#[derive(Debug, Clone, Copy, PartialEq, Eq, Structural)]
pub enum RoutePlannerKind {
    /// IP address used is switched on ban.
    Rotating,
    /// IP address used is switched on clock update.
    Nano,
    /// IP address used is switched on clock update, rotates to a different /64 block on ban.
    RotatingNano,
    /// IP address used is selected at random per request.
    Balancing,
}

/// The kind of a route planner.
pub open spec fn route_planner_kind(p: RoutePlanner) -> RoutePlannerKind {
    match p {
        RoutePlanner::Rotating(_) => RoutePlannerKind::Rotating,
        RoutePlanner::Nano(_) => RoutePlannerKind::Nano,
        RoutePlanner::RotatingNano(_) => RoutePlannerKind::RotatingNano,
        RoutePlanner::Balancing(_) => RoutePlannerKind::Balancing,
    }
}

impl RoutePlanner {
    /// Get the ip block being used.
    pub fn ip_block(&self) -> (r: &IPBlock)
        ensures
            *r == (match *self {
                RoutePlanner::Rotating(p) => p.ip_block,
                RoutePlanner::Nano(p) => p.ip_block,
                RoutePlanner::RotatingNano(p) => p.ip_block,
                RoutePlanner::Balancing(p) => p.ip_block,
            }),
    {
        match self {
            RoutePlanner::Rotating(p) => &p.ip_block,
            RoutePlanner::Nano(p) => &p.ip_block,
            RoutePlanner::RotatingNano(p) => &p.ip_block,
            RoutePlanner::Balancing(p) => &p.ip_block,
        }
    }

    /// Get the failing addresses.
    pub fn failing_addresses(&self) -> (r: &Vec<FailingAddress>)
        ensures
            *r == (match *self {
                RoutePlanner::Rotating(p) => p.failing_addresses,
                RoutePlanner::Nano(p) => p.failing_addresses,
                RoutePlanner::RotatingNano(p) => p.failing_addresses,
                RoutePlanner::Balancing(p) => p.failing_addresses,
            }),
    {
        match self {
            RoutePlanner::Rotating(p) => &p.failing_addresses,
            RoutePlanner::Nano(p) => &p.failing_addresses,
            RoutePlanner::RotatingNano(p) => &p.failing_addresses,
            RoutePlanner::Balancing(p) => &p.failing_addresses,
        }
    }

    /// Get the current address being used, for the planners that keep an index.
    pub fn current_address_index(&self) -> (r: Option<&String>)
        ensures
            r == (match *self {
                RoutePlanner::Nano(p) => Some(&p.current_address_index),
                RoutePlanner::RotatingNano(p) => Some(&p.current_address_index),
                _ => None,
            }),
    {
        match self {
            RoutePlanner::Nano(p) => Some(&p.current_address_index),
            RoutePlanner::RotatingNano(p) => Some(&p.current_address_index),
            _ => None,
        }
    }

    /// Get the kind of route planner.
    pub fn kind(&self) -> (r: RoutePlannerKind)
        ensures
            r == route_planner_kind(*self),
    {
        match self {
            RoutePlanner::Rotating(_) => RoutePlannerKind::Rotating,
            RoutePlanner::Nano(_) => RoutePlannerKind::Nano,
            RoutePlanner::RotatingNano(_) => RoutePlannerKind::RotatingNano,
            RoutePlanner::Balancing(_) => RoutePlannerKind::Balancing,
        }
    }

    /// Check if the route planner is rotating.
    pub fn is_rotating(&self) -> (r: bool)
        ensures
            r == (*self is Rotating),
    {
        matches!(self, Self::Rotating(_))
    }

    /// Check if the route planner is nano.
    pub fn is_nano(&self) -> (r: bool)
        ensures
            r == (*self is Nano),
    {
        matches!(self, Self::Nano(_))
    }

    /// Check if the route planner is rotating nano.
    pub fn is_rotating_nano(&self) -> (r: bool)
        ensures
            r == (*self is RotatingNano),
    {
        matches!(self, Self::RotatingNano(_))
    }

    /// Check if the route planner is balancing.
    pub fn is_balancing(&self) -> (r: bool)
        ensures
            r == (*self is Balancing),
    {
        matches!(self, Self::Balancing(_))
    }

    /// Convert the route planner to rotating.
    pub fn to_rotating(self) -> (r: Option<RotatingIpRoutePlanner>)
        ensures
            r == (match self {
                RoutePlanner::Rotating(p) => Some(p),
                _ => None,
            }),
    {
        match self {
            RoutePlanner::Rotating(p) => Some(p),
            _ => None,
        }
    }

    /// Convert the route planner to nano.
    pub fn to_nano(self) -> (r: Option<NanoIpRoutePlanner>)
        ensures
            r == (match self {
                RoutePlanner::Nano(p) => Some(p),
                _ => None,
            }),
    {
        match self {
            RoutePlanner::Nano(p) => Some(p),
            _ => None,
        }
    }

    /// Convert the route planner to rotating nano.
    pub fn to_rotating_nano(self) -> (r: Option<RotatingNanoIpRoutePlanner>)
        ensures
            r == (match self {
                RoutePlanner::RotatingNano(p) => Some(p),
                _ => None,
            }),
    {
        match self {
            RoutePlanner::RotatingNano(p) => Some(p),
            _ => None,
        }
    }

    /// Convert the route planner to balancing.
    pub fn to_balancing(self) -> (r: Option<BalancingIpRoutePlanner>)
        ensures
            r == (match self {
                RoutePlanner::Balancing(p) => Some(p),
                _ => None,
            }),
    {
        match self {
            RoutePlanner::Balancing(p) => Some(p),
            _ => None,
        }
    }

    /// Get the rotating route planner.
    pub fn as_rotating(&self) -> (r: Option<&RotatingIpRoutePlanner>)
        ensures
            r == (match *self {
                RoutePlanner::Rotating(p) => Some(&p),
                _ => None,
            }),
    {
        match self {
            RoutePlanner::Rotating(p) => Some(p),
            _ => None,
        }
    }

    /// Get the nano route planner.
    pub fn as_nano(&self) -> (r: Option<&NanoIpRoutePlanner>)
        ensures
            r == (match *self {
                RoutePlanner::Nano(p) => Some(&p),
                _ => None,
            }),
    {
        match self {
            RoutePlanner::Nano(p) => Some(p),
            _ => None,
        }
    }

    /// Get the rotating nano route planner.
    pub fn as_rotating_nano(&self) -> (r: Option<&RotatingNanoIpRoutePlanner>)
        ensures
            r == (match *self {
                RoutePlanner::RotatingNano(p) => Some(&p),
                _ => None,
            }),
    {
        match self {
            RoutePlanner::RotatingNano(p) => Some(p),
            _ => None,
        }
    }

    /// Get the balancing route planner.
    pub fn as_balancing(&self) -> (r: Option<&BalancingIpRoutePlanner>)
        ensures
            r == (match *self {
                RoutePlanner::Balancing(p) => Some(&p),
                _ => None,
            }),
    {
        match self {
            RoutePlanner::Balancing(p) => Some(p),
            _ => None,
        }
    }
}

/// Unmark a route planner.
#[derive(Debug, Clone)]
pub struct UnmarkRoutePlanner {
    /// The address to unmark.
    pub address: String,
}

/// A route planner knows its own kind, and converts to its kind's planner and no other.
pub proof fn lemma_route_planner_kind(p: RoutePlanner)
    ensures
        (route_planner_kind(p) == RoutePlannerKind::Rotating) == (p is Rotating),
        (route_planner_kind(p) == RoutePlannerKind::Nano) == (p is Nano),
        (route_planner_kind(p) == RoutePlannerKind::RotatingNano) == (p is RotatingNano),
        (route_planner_kind(p) == RoutePlannerKind::Balancing) == (p is Balancing),
{
}

} // verus!
