//! The decisions the player manager takes between its calls to Lavalink and
//! Discord: what a search tries, what a load result puts in the queue, whether a
//! player plays, and what a change of voice state asks for.

use crate::model::{self, LoadResult, VoiceState};
use crate::player::{AddQueueResult, FetchResult, PlayResult};
use vstd::prelude::*;

verus! {

/// The search prefixes tried, in order, when a query finds nothing by itself.
pub open spec fn search_prefixes() -> Seq<Seq<char>> {
    seq!["spsearch:"@, "ytsearch:"@, "dzsearch:"@, "scsearch:"@]
}

/// The search prefixes for the music.
pub fn hydrogen_search_prefixes() -> (r: Vec<&'static str>)
    ensures
        r@.len() == search_prefixes().len(),
        forall|i: int| 0 <= i < r@.len() ==> r@[i]@ == search_prefixes()[i],
{
    let r = vec!["spsearch:", "ytsearch:", "dzsearch:", "scsearch:"];
    proof {
        assert(r@[0]@ == search_prefixes()[0]);
        assert(r@[1]@ == search_prefixes()[1]);
        assert(r@[2]@ == search_prefixes()[2]);
        assert(r@[3]@ == search_prefixes()[3]);
    }
    r
}

/// The queries a search sends, in order, until one finds something: the music as
/// given, then the music behind each search prefix.
pub fn search_queries(music: &str) -> (r: Vec<String>)
    ensures
        r@.len() == search_prefixes().len() + 1,
        r@[0]@ == music@,
        forall|i: int| 0 <= i < search_prefixes().len() ==> r@[i + 1]@ == search_prefixes()[i] + music@,
{
    let prefixes = hydrogen_search_prefixes();
    let mut queries: Vec<String> = Vec::new();
    queries.push(String::from_str(music));
    let mut k: usize = 0;
    while k < prefixes.len()
        invariant
            k <= prefixes@.len(),
            prefixes@.len() == search_prefixes().len(),
            forall|i: int| 0 <= i < prefixes@.len() ==> prefixes@[i]@ == search_prefixes()[i],
            queries@.len() == k + 1,
            queries@[0]@ == music@,
            forall|i: int| 0 <= i < k ==> queries@[i + 1]@ == search_prefixes()[i] + music@,
        decreases prefixes@.len() - k,
    {
        let query = String::from_str(prefixes[k]).concat(music);
        queries.push(query);
        k = k + 1;
    }
    queries
}

/// Chooses the result a search answers, given which query results were empty:
/// the first that found something, else the first.
pub fn chosen_result(empty: &Vec<bool>) -> (r: usize)
    ensures
        empty@.len() > 0 ==> r < empty@.len(),
        (exists|i: int| 0 <= i < empty@.len() && !empty@[i]) ==> !empty@[r as int]
            && forall|j: int| 0 <= j < r ==> empty@[j],
        !(exists|i: int| 0 <= i < empty@.len() && !empty@[i]) ==> r == 0,
{
    let mut k: usize = 0;
    while k < empty.len()
        invariant
            k <= empty@.len(),
            forall|j: int| 0 <= j < k ==> empty@[j],
        decreases empty@.len() - k,
    {
        if !empty[k] {
            return k;
        }
        k = k + 1;
    }
    0
}

/// What a load result puts in the queue: the first track of a search, the tracks of
/// a playlist with its selected track when it names one, or the one track loaded.
/// An empty load or a failed one puts nothing.
pub open spec fn fetched(load: LoadResult) -> Option<(Option<usize>, Seq<model::Track>)> {
    match load {
        LoadResult::Search(tracks) => if tracks@.len() > 0 {
            Some((None, seq![tracks@[0]]))
        } else {
            None
        },
        LoadResult::Playlist(playlist) => Some((
            if playlist.info.selected_track >= 0 { Some(playlist.info.selected_track as usize) } else { None },
            playlist.tracks@,
        )),
        LoadResult::Track(track) => Some((None, seq![track])),
        LoadResult::Empty => None,
        LoadResult::Error(_) => None,
    }
}

impl FetchResult {
    /// The tracks a load result puts in the queue, if any.
    pub fn from_load_result(load: LoadResult) -> (r: Option<FetchResult>)
        ensures
            match fetched(load) {
                Some((selected, tracks)) => r matches Some(f) && f.selected == selected && f.tracks@ == tracks,
                None => r is None,
            },
    {
        match load {
            LoadResult::Search(tracks) => {
                let mut tracks = tracks;
                if tracks.len() > 0 {
                    let first = tracks.remove(0);
                    Some(FetchResult { selected: None, tracks: vec![first] })
                } else {
                    None
                }
            },
            LoadResult::Playlist(playlist) => {
                let selected = if playlist.info.selected_track >= 0 {
                    Some(playlist.info.selected_track as usize)
                } else {
                    None
                };
                Some(FetchResult { selected, tracks: playlist.tracks })
            },
            LoadResult::Track(music) => Some(FetchResult { selected: None, tracks: vec![music] }),
            LoadResult::Empty => None,
            LoadResult::Error(_) => None,
        }
    }
}

impl AddQueueResult {
    /// The queue index a play request starts from: the selected track, else the first added.
    pub fn start_index(&self) -> (r: usize)
        ensures
            r == match self.selected {
                Some(s) => s,
                None => self.first_track_index,
            },
    {
        match self.selected {
            Some(s) => s,
            None => self.first_track_index,
        }
    }
}

impl PlayResult {
    /// The result of a play request that found nothing to play.
    pub fn nothing_found() -> (r: Self)
        ensures
            r.track is None,
            r.count == 0,
            !r.playing,
            !r.truncated,
    {
        PlayResult { track: None, count: 0, playing: false, truncated: false }
    }
}

/// Whether a player plays: it has a current track and its Lavalink player holds a
/// track. `remote` says whether the Lavalink player holds one, or is `None` when the
/// node has no player for the guild.
pub fn playing_state(has_track: bool, remote: Option<bool>) -> (r: bool)
    ensures
        r == (has_track && remote == Some(true)),
{
    if !has_track {
        return false;
    }
    match remote {
        Some(remote_track) => remote_track,
        None => false,
    }
}

/// What a change of voice state asks of the player manager.
#[derive(Debug, Clone, Copy, PartialEq, Eq, Structural)]
pub struct VoiceStatePlan {
    /// The bot left the voice channel: the player is destroyed and nothing else happens.
    pub destroy: bool,
    /// The bot moved and has a player: Lavalink gets the new connection.
    pub update_connection: bool,
    /// The voice channel whose members decide whether the player waits to leave.
    pub watch_channel: Option<u64>,
}

/// Decides what a voice state change asks for. `is_me` tells whether the change is the
/// bot's own, `channel` is the channel of the change, and `my_channel` the bot's
/// current voice channel.
pub fn plan_voice_state(is_me: bool, channel: Option<u64>, has_player: bool, my_channel: Option<u64>) -> (r: VoiceStatePlan)
    ensures
        r.destroy == (is_me && channel is None),
        r.update_connection == (is_me && channel is Some && has_player),
        r.watch_channel == (if r.destroy { None } else if is_me { channel } else { my_channel }),
{
    if is_me {
        match channel {
            Some(c) => VoiceStatePlan { destroy: false, update_connection: has_player, watch_channel: Some(c) },
            None => VoiceStatePlan { destroy: true, update_connection: false, watch_channel: None },
        }
    } else {
        VoiceStatePlan { destroy: false, update_connection: false, watch_channel: my_channel }
    }
}

/// Whether the bot is alone in its voice channel (the count includes the bot), so
/// that the player waits to leave and shows it is thinking.
pub fn alone_in_channel(members: usize) -> (r: bool)
    ensures
        r == (members <= 1),
{
    members <= 1
}

/// The voice state Lavalink gets when Discord moves the bot to another voice server:
/// the new token and endpoint with the session of the bot's current connection.
/// There is none without a connection (`session_id`) or without an endpoint.
pub fn server_voice_state(token: &str, endpoint: Option<&str>, session_id: Option<&str>) -> (r: Option<VoiceState>)
    ensures
        match (endpoint, session_id) {
            (Some(e), Some(s)) => r matches Some(v) && v.token@ == token@ && v.endpoint@ == e@ && v.session_id@ == s@,
            _ => r is None,
        },
{
    match session_id {
        Some(session) => match endpoint {
            Some(e) => Some(VoiceState::new(token, e, session)),
            None => None,
        },
        None => None,
    }
}

} // verus!
