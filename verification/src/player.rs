//! Player information and queue behaviour.

use crate::model;
use rand::seq::SliceRandom;
use vstd::prelude::*;

verus! {

/// How many music tracks can be stored in the queue.
pub const HYDROGEN_QUEUE_LIMIT: usize = 1000;

/// The requester that a track converted without one is attributed to
/// (the smallest snowflake, which Discord ids default to).
pub const DEFAULT_REQUESTER: u64 = 1;

/// A handle on the task that destroys an idle player.
#[verifier::external_type_specification]
#[verifier::external_body]
#[verifier::reject_recursive_types(T)]
pub struct ExJoinHandle<T>(tokio::task::JoinHandle<T>);

/// The failure a task handle can report when awaited, which the handle's type names.
#[verifier::external_type_specification]
#[verifier::external_body]
pub struct ExJoinError(tokio::task::JoinError);


/// Loop mode for the player.
#[derive(Debug, Clone, Copy, PartialEq, Eq, Structural)]
pub enum LoopMode {
    /// No loop: the next track starts automatically until the queue ends.
    Normal,
    /// Loop the current track.
    Single,
    /// Loop the queue.
    All,
    /// Like [LoopMode::Normal], but automatically pauses after the track ends.
    AutoPause,
}

/// The mode that follows `mode` in the cycle Normal, Single, All, AutoPause.
pub open spec fn next_loop_mode(mode: LoopMode) -> LoopMode {
    match mode {
        LoopMode::Normal => LoopMode::Single,
        LoopMode::Single => LoopMode::All,
        LoopMode::All => LoopMode::AutoPause,
        LoopMode::AutoPause => LoopMode::Normal,
    }
}

/// The emoji that shows a loop mode.
pub open spec fn loop_mode_emoji(mode: LoopMode) -> Seq<char> {
    match mode {
        LoopMode::Normal => "➡️"@,
        LoopMode::Single => "🔂"@,
        LoopMode::All => "🔁"@,
        LoopMode::AutoPause => "↩️"@,
    }
}

impl LoopMode {
    /// Get the next loop mode.
    pub fn next(&self) -> (r: Self)
        ensures
            r == next_loop_mode(*self),
    {
        match self {
            LoopMode::Normal => LoopMode::Single,
            LoopMode::Single => LoopMode::All,
            LoopMode::All => LoopMode::AutoPause,
            LoopMode::AutoPause => LoopMode::Normal,
        }
    }

    /// The emoji that shows this loop mode.
    pub fn emoji(&self) -> (r: &'static str)
        ensures
            r@ == loop_mode_emoji(*self),
    {
        match self {
            LoopMode::Normal => "➡️",
            LoopMode::Single => "🔂",
            LoopMode::All => "🔁",
            LoopMode::AutoPause => "↩️",
        }
    }
}

/// Track information.
#[derive(Debug, PartialEq, Eq)]
pub struct Track {
    /// The track's identifier.
    pub track: String,
    /// The track's author.
    pub author: String,
    /// The track's title.
    pub title: String,
    /// Id of the track's requester.
    pub requester: u64,
    /// The track's duration.
    pub duration: u64,
    /// The track's URL for the user.
    pub url: Option<String>,
    /// The track's thumbnail.
    pub thumbnail: Option<String>,
}

/// Copies an optional text.
pub fn copy_text(text: &Option<String>) -> (r: Option<String>)
    ensures
        r == *text,
{
    match text {
        Some(s) => Some(s.clone()),
        None => None,
    }
}

impl Clone for Track {
    fn clone(&self) -> (r: Self)
        ensures
            r == *self,
    {
        Track {
            track: self.track.clone(),
            author: self.author.clone(),
            title: self.title.clone(),
            requester: self.requester,
            duration: self.duration,
            url: copy_text(&self.url),
            thumbnail: copy_text(&self.thumbnail),
        }
    }
}

/// The player track made from a Lavalink track and its requester.
pub open spec fn track_from_lavalink(t: model::Track, requester: u64) -> Track {
    Track {
        track: t.encoded,
        author: t.info.author,
        title: t.info.title,
        requester: requester,
        duration: t.info.length,
        url: t.info.uri,
        thumbnail: t.info.artwork_url,
    }
}

impl Track {
    /// Create a new track.
    pub fn from_track(track: model::Track, requester: u64) -> (r: Self)
        ensures
            r == track_from_lavalink(track, requester),
    {
        Self {
            track: track.encoded,
            title: track.info.title,
            author: track.info.author,
            requester,
            duration: track.info.length,
            url: track.info.uri,
            thumbnail: track.info.artwork_url,
        }
    }
}

impl From<model::Track> for Track {
    fn from(track: model::Track) -> (r: Self) {
        Track::from_track(track, DEFAULT_REQUESTER)
    }
}

impl vstd::std_specs::convert::FromSpecImpl<model::Track> for Track {
    open spec fn obeys_from_spec() -> bool {
        true
    }

    open spec fn from_spec(v: model::Track) -> Self {
        track_from_lavalink(v, DEFAULT_REQUESTER)
    }
}

/// Player information.
#[derive(Debug)]
pub struct Player {
    /// The text channel where the player is sending messages.
    pub channel_id: Option<u64>,
    /// The message ID of the player.
    pub message_id: Option<u64>,
    /// The queue of tracks.
    pub queue: Vec<Track>,
    /// The current track being played.
    pub current_track: usize,
    /// The loop mode of the player.
    pub loop_mode: LoopMode,
    /// If the player is paused.
    pub paused: bool,
    /// The Lavalink node ID.
    pub node_id: usize,
    /// The translation locale for the player messages.
    pub locale: String,
    /// The handle for the player's destroy task.
    pub destroy_handle: Option<tokio::task::JoinHandle<()>>,
}

/// The track at `index` in `queue`, if there is one.
pub open spec fn track_at(queue: Seq<Track>, index: int) -> Option<Track> {
    if 0 <= index < queue.len() {
        Some(queue[index])
    } else {
        None
    }
}

/// The tracks that are added to a queue: the first `count` fetched tracks, attributed to `requester`.
pub open spec fn converted_tracks(fetched: Seq<model::Track>, requester: u64, count: nat) -> Seq<Track> {
    Seq::new(count, |i: int| track_from_lavalink(fetched[i], requester))
}

/// `items` put into `queue` at `index`.
pub open spec fn inserted_at(queue: Seq<Track>, index: int, items: Seq<Track>) -> Seq<Track> {
    queue.take(index) + items + queue.skip(index)
}

/// How many of `fetched` tracks fit in a queue of `queue_len` tracks.
pub open spec fn admitted_count(queue_len: nat, fetched: nat) -> nat {
    if fetched <= HYDROGEN_QUEUE_LIMIT - queue_len {
        fetched
    } else {
        (HYDROGEN_QUEUE_LIMIT - queue_len) as nat
    }
}

/// Where the tracks added by `operation` start, for a player at track `current` of a
/// queue of `queue_len` tracks: at the end, or right after the current track (at the
/// end when the current track lies beyond the queue, as in a fresh player).
pub open spec fn first_added_index(operation: AddQueueOperation, current: usize, queue_len: nat) -> int {
    match operation {
        AddQueueOperation::End => queue_len as int,
        AddQueueOperation::Next => if current < queue_len { current + 1 } else { queue_len as int },
    }
}

/// The track to play among those added: the selected one when it exists in the new queue, else the first added.
pub open spec fn selected_index(selected: Option<usize>, first: int, new_len: nat) -> Option<usize> {
    match selected {
        Some(i) => Some(if first + i < new_len { (first + i) as usize } else { first as usize }),
        None => None,
    }
}

/// The track index, pause flag and need to restart the node player after a track ends.
pub open spec fn next_track_plan(mode: LoopMode, current: int, len: int) -> (int, bool, bool) {
    match mode {
        LoopMode::Normal => if current + 1 >= len {
            (len - 1, false, false)
        } else {
            (current + 1, false, true)
        },
        LoopMode::Single => (current, false, true),
        LoopMode::All => ((current + 1) % len, false, true),
        LoopMode::AutoPause => if current + 1 >= len {
            (len - 1, true, false)
        } else {
            (current + 1, true, false)
        },
    }
}

/// The index of the track after `current` in a queue of `len` tracks, wrapping around.
pub open spec fn skip_index(current: int, len: int) -> int {
    (current + 1) % len
}

/// The index of the track before `current` in a queue of `len` tracks, wrapping around.
pub open spec fn previous_index(current: int, len: int) -> int {
    if current > 0 {
        current - 1
    } else {
        len - 1
    }
}

/// Whether a track selected by a play request restarts the node player:
/// always when forced, else only when nothing plays and the loop mode moves on by itself.
pub open spec fn sync_planned(mode: LoopMode, track: int, len: int, is_playing: bool, forced: bool) -> bool {
    &&& 0 <= track < len
    &&& (forced || (!is_playing && (mode == LoopMode::All || mode == LoopMode::Normal)))
}


/// Cycling the loop mode four times comes back to the start, and every step
/// changes the mode: the loop button visits all four modes in turn.
pub proof fn lemma_loop_mode_cycle(mode: LoopMode)
    ensures
        next_loop_mode(next_loop_mode(next_loop_mode(next_loop_mode(mode)))) == mode,
        next_loop_mode(mode) != mode,
        next_loop_mode(next_loop_mode(mode)) != mode,
        next_loop_mode(next_loop_mode(next_loop_mode(mode))) != mode,
{
}

/// Going to the previous track undoes skipping to the next one, and skipping
/// undoes going back, for any track of a non-empty queue.
pub proof fn lemma_previous_undoes_skip(current: int, len: int)
    requires
        0 <= current < len,
    ensures
        previous_index(skip_index(current, len), len) == current,
        skip_index(previous_index(current, len), len) == current,
        0 <= skip_index(current, len) < len,
        0 <= previous_index(current, len) < len,
{
    if current + 1 < len {
        assert((current + 1) % len == current + 1) by (nonlinear_arith)
            requires 0 <= current + 1 < len;
    } else {
        assert((current + 1) % len == 0) by (nonlinear_arith)
            requires current + 1 == len, len > 0;
    }
    if current > 0 {
        assert(current % len == current) by (nonlinear_arith)
            requires 0 <= current < len;
    } else {
        assert(len % len == 0) by (nonlinear_arith)
            requires len > 0;
    }
}

/// Putting tracks after the current one, or at the end of the queue, leaves the
/// current track where it was: adding to the queue never changes what plays.
pub proof fn lemma_insert_keeps_current(queue: Seq<Track>, current: int, first: int, items: Seq<Track>)
    requires
        0 <= current < first <= queue.len(),
    ensures
        inserted_at(queue, first, items)[current] == queue[current],
        inserted_at(queue, first, items).len() == queue.len() + items.len(),
{
}

/// Adding fetched tracks to a queue within the limit never takes it past the
/// limit, and every fetched track is added when there is room for all of them.
pub proof fn lemma_added_tracks_fit(queue_len: nat, fetched: nat)
    requires
        queue_len <= HYDROGEN_QUEUE_LIMIT,
    ensures
        queue_len + admitted_count(queue_len, fetched) <= HYDROGEN_QUEUE_LIMIT,
        admitted_count(queue_len, fetched) <= fetched,
        (admitted_count(queue_len, fetched) == fetched) <==> (queue_len + fetched <= HYDROGEN_QUEUE_LIMIT),
{
}

/// When a track of a non-empty queue ends, the track chosen next is in the queue,
/// only the AutoPause mode pauses, and only the AutoPause and Normal modes stop at the end.
pub proof fn lemma_next_track_in_queue(mode: LoopMode, current: int, len: int)
    requires
        0 <= current < len,
    ensures
        0 <= next_track_plan(mode, current, len).0 < len,
        next_track_plan(mode, current, len).1 == (mode == LoopMode::AutoPause),
        mode == LoopMode::Single ==> next_track_plan(mode, current, len).0 == current,
        mode == LoopMode::All ==> next_track_plan(mode, current, len).0 == skip_index(current, len),
{
    lemma_previous_undoes_skip(current, len);
}

/// A play request starts its track exactly when the track is in the queue and either
/// the request is forced (play now) or nothing plays and the loop mode moves on by
/// itself: an idle player in the Normal or All mode always starts the track selected,
/// one in the Single or AutoPause mode never does unless forced.
pub proof fn lemma_play_request_starts_track(mode: LoopMode, track: int, len: int, is_playing: bool, forced: bool)
    ensures
        sync_planned(mode, track, len, is_playing, forced) ==> 0 <= track < len,
        0 <= track < len && forced ==> sync_planned(mode, track, len, is_playing, forced),
        0 <= track < len && !is_playing ==> sync_planned(LoopMode::Normal, track, len, is_playing, forced),
        0 <= track < len && !is_playing ==> sync_planned(LoopMode::All, track, len, is_playing, forced),
        !forced ==> !sync_planned(mode, track, len, true, forced),
        !forced ==> !sync_planned(LoopMode::Single, track, len, is_playing, forced),
        !forced ==> !sync_planned(LoopMode::AutoPause, track, len, is_playing, forced),
{
}

/// When a track ends, the node player is restarted on the next track in the Single
/// and All modes always, in the Normal mode unless the queue has ended, and never in
/// the AutoPause mode, which pauses instead. All moves to the following track and
/// wraps to the first after the last; Normal and AutoPause stay on the last track.
pub proof fn lemma_track_end_restarts(mode: LoopMode, current: int, len: int)
    requires
        0 <= current < len,
    ensures
        next_track_plan(LoopMode::All, current, len).2,
        next_track_plan(LoopMode::Single, current, len).2,
        next_track_plan(LoopMode::Normal, current, len).2 <==> current + 1 < len,
        !next_track_plan(LoopMode::AutoPause, current, len).2,
        next_track_plan(mode, current, len).1 <==> mode == LoopMode::AutoPause,
        current + 1 < len ==> next_track_plan(LoopMode::All, current, len).0 == current + 1,
        current + 1 == len ==> next_track_plan(LoopMode::All, current, len).0 == 0,
        current + 1 < len ==> next_track_plan(LoopMode::Normal, current, len).0 == current + 1,
        current + 1 == len ==> next_track_plan(LoopMode::Normal, current, len).0 == current,
{
    if current + 1 < len {
        assert((current + 1) % len == current + 1) by (nonlinear_arith)
            requires 0 <= current + 1 < len;
    } else {
        assert((current + 1) % len == 0) by (nonlinear_arith)
            requires current + 1 == len, len > 0;
    }
}

/// A request adds as many of the fetched tracks as there is room for: all of them
/// when they fit, else exactly enough to fill the queue to its limit, and it is
/// reported as cut short exactly when they do not all fit.
pub proof fn lemma_queue_filled_to_limit(queue_len: nat, fetched: nat)
    requires
        queue_len <= HYDROGEN_QUEUE_LIMIT,
    ensures
        queue_len + fetched <= HYDROGEN_QUEUE_LIMIT ==> admitted_count(queue_len, fetched) == fetched,
        queue_len + fetched > HYDROGEN_QUEUE_LIMIT ==> queue_len + admitted_count(queue_len, fetched) == HYDROGEN_QUEUE_LIMIT,
        admitted_count(queue_len, fetched) < fetched <==> queue_len + fetched > HYDROGEN_QUEUE_LIMIT,
{
}

impl Player {
    /// Create a new player.
    pub fn new(node_id: usize, locale: &str, channel_id: u64, loop_mode: LoopMode, paused: bool) -> (r: Self)
        ensures
            r.channel_id == Some(channel_id),
            r.message_id is None,
            r.queue@.len() == 0,
            r.current_track == 0,
            r.loop_mode == loop_mode,
            r.paused == paused,
            r.node_id == node_id,
            r.locale@ == locale@,
            r.destroy_handle is None,
    {
        Self {
            channel_id: Some(channel_id),
            message_id: None,
            queue: Vec::new(),
            current_track: 0,
            loop_mode,
            paused,
            node_id,
            locale: locale.to_owned(),
            destroy_handle: None,
        }
    }

    /// Create a new player with the settings for the normal player.
    pub fn new_normal(node_id: usize, locale: &str, channel_id: u64) -> (r: Self)
        ensures
            r.channel_id == Some(channel_id),
            r.message_id is None,
            r.queue@.len() == 0,
            r.current_track == 0,
            r.loop_mode == LoopMode::Normal,
            !r.paused,
            r.node_id == node_id,
            r.locale@ == locale@,
            r.destroy_handle is None,
    {
        Self::new(node_id, locale, channel_id, LoopMode::Normal, false)
    }

    /// The track currently selected, if the index points into the queue.
    pub fn get_current_track(&self) -> (r: Option<Track>)
        ensures
            r == track_at(self.queue@, self.current_track as int),
    {
        if self.current_track < self.queue.len() {
            Some(self.queue[self.current_track].clone())
        } else {
            None
        }
    }

    /// What the node player must be told to play: the current track's identifier,
    /// the pause flag and the node, or nothing when no track is selected.
    pub fn sync_request(&self) -> (r: Option<(String, bool, usize)>)
        ensures
            r == (if self.current_track < self.queue@.len() {
                Some((self.queue@[self.current_track as int].track, self.paused, self.node_id))
            } else {
                None
            }),
    {
        if self.current_track < self.queue.len() {
            Some((self.queue[self.current_track].track.clone(), self.paused, self.node_id))
        } else {
            None
        }
    }

    /// Add the fetched tracks to the player's queue.
    pub fn add_queue(&mut self, fetch_result: FetchResult, requester: u64, operation: AddQueueOperation) -> (r: AddQueueResult)
        requires
            old(self).queue@.len() <= HYDROGEN_QUEUE_LIMIT,
        ensures
            ({
                let old_len = old(self).queue@.len();
                let first = first_added_index(operation, old(self).current_track, old_len);
                let count = admitted_count(old_len, fetch_result.tracks@.len());
                if old_len == HYDROGEN_QUEUE_LIMIT {
                    &&& r == AddQueueResult { selected: None, first_track_index: old_len as usize, count: 0, truncated: true }
                    &&& final(self).queue@ == old(self).queue@
                } else {
                    &&& r.count == count
                    &&& r.truncated == (count < fetch_result.tracks@.len())
                    &&& r.first_track_index == first
                    &&& final(self).queue@ == inserted_at(
                        old(self).queue@,
                        first,
                        converted_tracks(fetch_result.tracks@, requester, count),
                    )
                    &&& r.selected == selected_index(fetch_result.selected, first, final(self).queue@.len())
                }
            }),
            final(self).queue@.len() <= HYDROGEN_QUEUE_LIMIT,
            final(self).queue@.len() == (if old(self).queue@.len() + fetch_result.tracks@.len() <= HYDROGEN_QUEUE_LIMIT {
                (old(self).queue@.len() + fetch_result.tracks@.len()) as int
            } else {
                HYDROGEN_QUEUE_LIMIT as int
            }),
            r.count == final(self).queue@.len() - old(self).queue@.len(),
            old(self).queue@.len() < HYDROGEN_QUEUE_LIMIT
                ==> r.truncated == (old(self).queue@.len() + fetch_result.tracks@.len() > HYDROGEN_QUEUE_LIMIT),
            final(self).current_track == old(self).current_track,
            final(self).loop_mode == old(self).loop_mode,
            final(self).paused == old(self).paused,
            final(self).node_id == old(self).node_id,
            final(self).channel_id == old(self).channel_id,
            final(self).message_id == old(self).message_id,
            final(self).locale == old(self).locale,
            final(self).destroy_handle == old(self).destroy_handle,
    {
        let old_queue_size = self.queue.len();

        let first_track_index = match operation {
            AddQueueOperation::End => old_queue_size,
            AddQueueOperation::Next => if self.current_track < old_queue_size {
                self.current_track + 1
            } else {
                old_queue_size
            },
        };

        let available_size = HYDROGEN_QUEUE_LIMIT - old_queue_size;

        if available_size == 0 {
            return AddQueueResult {
                count: 0,
                truncated: true,
                first_track_index: old_queue_size,
                selected: None,
            };
        }

        let old_tracks_size = fetch_result.tracks.len();
        let ghost fetched = fetch_result.tracks@;
        let selected_request = fetch_result.selected;
        let mut source = fetch_result.tracks;
        let mut tracks: Vec<Track> = Vec::new();
        let mut taken: usize = 0;

        while taken < available_size && taken < old_tracks_size
            invariant
                old_tracks_size == fetched.len(),
                taken <= available_size,
                taken <= old_tracks_size,
                source@ == fetched.skip(taken as int),
                tracks@ == converted_tracks(fetched, requester, taken as nat),
            decreases old_tracks_size - taken,
        {
            let raw = source.remove(0);
            let converted = Track::from_track(raw, requester);
            tracks.push(converted);
            proof {
                assert(tracks@ =~= converted_tracks(fetched, requester, (taken + 1) as nat));
            }
            taken = taken + 1;
        }

        let truncated = tracks.len() < old_tracks_size;
        let tracks_size = tracks.len();
        let ghost added = tracks@;

        match operation {
            AddQueueOperation::End => {
                self.queue.append(&mut tracks);
                proof {
                    assert(old(self).queue@.skip(old_queue_size as int) =~= Seq::<Track>::empty());
                    assert(old(self).queue@.take(old_queue_size as int) =~= old(self).queue@);
                }
            },
            AddQueueOperation::Next => {
                let mut tail = self.queue.split_off(first_track_index);
                self.queue.append(&mut tracks);
                self.queue.append(&mut tail);
            },
        }
        assert(self.queue@ =~= inserted_at(old(self).queue@, first_track_index as int, added));

        let new_len = self.queue.len();
        let selected = match selected_request {
            Some(i) => Some(
                match first_track_index.checked_add(i) {
                    Some(new_index) => if new_index < new_len {
                        new_index
                    } else {
                        first_track_index
                    },
                    None => first_track_index,
                },
            ),
            None => None,
        };

        AddQueueResult { count: tracks_size, truncated, first_track_index, selected }
    }

    /// Whether the node player must start the track at `track` for a play request,
    /// and if so selects that track.
    ///
    /// A forced request (play now) always starts a track that exists; otherwise the
    /// track only starts when nothing is playing and the loop mode moves on by itself.
    pub fn prepare_update_sync(&mut self, track: usize, is_playing: bool, forced: bool) -> (r: bool)
        ensures
            r == sync_planned(old(self).loop_mode, track as int, old(self).queue@.len() as int, is_playing, forced),
            r ==> final(self).current_track == track,
            r ==> track < old(self).queue@.len(),
            track < old(self).queue@.len() && forced ==> r,
            track < old(self).queue@.len() && !is_playing
                && (old(self).loop_mode == LoopMode::All || old(self).loop_mode == LoopMode::Normal) ==> r,
            !forced && (is_playing || old(self).loop_mode == LoopMode::Single || old(self).loop_mode == LoopMode::AutoPause)
                ==> !r,
            !r ==> final(self).current_track == old(self).current_track,
            final(self).queue == old(self).queue,
            final(self).loop_mode == old(self).loop_mode,
            final(self).paused == old(self).paused,
            final(self).node_id == old(self).node_id,
            final(self).channel_id == old(self).channel_id,
            final(self).message_id == old(self).message_id,
            final(self).locale == old(self).locale,
            final(self).destroy_handle == old(self).destroy_handle,
    {
        let need_sync = matches!(self.loop_mode, LoopMode::All | LoopMode::Normal);
        let safe_track = track < self.queue.len();
        let go = if forced {
            safe_track
        } else {
            !is_playing && need_sync && safe_track
        };
        if go {
            self.current_track = track;
        }
        go
    }

    /// The result of a play request once the node player was (or was not) started:
    /// the current track when it plays, else the track at `track`.
    pub fn sync_result(&self, track: usize, playing: bool) -> (r: SyncResult)
        ensures
            r.playing == playing,
            r.track == (if playing {
                track_at(self.queue@, self.current_track as int)
            } else {
                track_at(self.queue@, track as int)
            }),
    {
        if playing {
            SyncResult { track: self.get_current_track(), playing }
        } else {
            let track = if track < self.queue.len() {
                Some(self.queue[track].clone())
            } else {
                None
            };
            SyncResult { track, playing: false }
        }
    }

    /// Uses the player's loop mode to determine the next track to play.
    ///
    /// Returns whether the node player must be restarted on the new track; when it
    /// need not, only the player message is refreshed.
    pub fn next_track(&mut self) -> (r: bool)
        requires
            old(self).loop_mode != LoopMode::Single ==> old(self).queue@.len() > 0,
            old(self).loop_mode != LoopMode::Single ==> old(self).current_track < usize::MAX,
        ensures
            ({
                let plan = next_track_plan(
                    old(self).loop_mode,
                    old(self).current_track as int,
                    old(self).queue@.len() as int,
                );
                &&& final(self).current_track == plan.0
                &&& final(self).paused == plan.1
                &&& r == plan.2
            }),
            old(self).loop_mode == LoopMode::All || old(self).loop_mode == LoopMode::Single ==> r,
            old(self).loop_mode == LoopMode::Normal ==> (r <==> old(self).current_track + 1 < old(self).queue@.len()),
            old(self).loop_mode == LoopMode::AutoPause ==> !r && final(self).paused,
            old(self).loop_mode != LoopMode::AutoPause ==> !final(self).paused,
            final(self).queue == old(self).queue,
            final(self).loop_mode == old(self).loop_mode,
            final(self).node_id == old(self).node_id,
            final(self).channel_id == old(self).channel_id,
            final(self).message_id == old(self).message_id,
            final(self).locale == old(self).locale,
            final(self).destroy_handle == old(self).destroy_handle,
    {
        let len = self.queue.len();
        let current = self.current_track;
        let (new_index, should_pause, need_sync) = match self.loop_mode {
            LoopMode::Normal => {
                if current + 1 >= len {
                    (len - 1, false, false)
                } else {
                    (current + 1, false, true)
                }
            },
            LoopMode::Single => (current, false, true),
            LoopMode::All => ((current + 1) % len, false, true),
            LoopMode::AutoPause => {
                if current + 1 >= len {
                    (len - 1, true, false)
                } else {
                    (current + 1, true, false)
                }
            },
        };
        self.current_track = new_index;
        self.paused = should_pause;
        need_sync
    }

    /// Go to the previous track in the queue, returning it.
    pub fn previous(&mut self) -> (r: Option<Track>)
        requires
            old(self).current_track > 0 || old(self).queue@.len() > 0,
        ensures
            final(self).current_track == previous_index(old(self).current_track as int, old(self).queue@.len() as int),
            r == track_at(old(self).queue@, final(self).current_track as int),
            final(self).queue == old(self).queue,
            final(self).loop_mode == old(self).loop_mode,
            final(self).paused == old(self).paused,
            final(self).node_id == old(self).node_id,
            final(self).channel_id == old(self).channel_id,
            final(self).message_id == old(self).message_id,
            final(self).locale == old(self).locale,
            final(self).destroy_handle == old(self).destroy_handle,
    {
        self.current_track = if self.current_track > 0 {
            self.current_track - 1
        } else {
            self.queue.len() - 1
        };
        self.get_current_track()
    }

    /// Go to the next track in the queue, returning it.
    pub fn skip(&mut self) -> (r: Option<Track>)
        requires
            old(self).queue@.len() > 0,
            old(self).current_track < usize::MAX,
        ensures
            final(self).current_track == skip_index(old(self).current_track as int, old(self).queue@.len() as int),
            r == track_at(old(self).queue@, final(self).current_track as int),
            final(self).queue == old(self).queue,
            final(self).loop_mode == old(self).loop_mode,
            final(self).paused == old(self).paused,
            final(self).node_id == old(self).node_id,
            final(self).channel_id == old(self).channel_id,
            final(self).message_id == old(self).message_id,
            final(self).locale == old(self).locale,
            final(self).destroy_handle == old(self).destroy_handle,
    {
        self.current_track = (self.current_track + 1) % self.queue.len();
        self.get_current_track()
    }

    /// Applies a pause request: a playing player takes the requested state, any other
    /// player is resumed (and must then be restarted). Returns the new pause state.
    pub fn apply_pause(&mut self, paused: bool, is_playing: bool) -> (r: bool)
        ensures
            r == (is_playing && paused),
            final(self).paused == r,
            final(self).queue == old(self).queue,
            final(self).current_track == old(self).current_track,
            final(self).loop_mode == old(self).loop_mode,
            final(self).node_id == old(self).node_id,
            final(self).channel_id == old(self).channel_id,
            final(self).message_id == old(self).message_id,
            final(self).locale == old(self).locale,
            final(self).destroy_handle == old(self).destroy_handle,
    {
        if is_playing {
            self.paused = paused;
            paused
        } else {
            self.paused = false;
            false
        }
    }
}

/// Asks the task behind `handle` to stop.
///
/// Calls `tokio::task::JoinHandle::abort`, which only requests the cancellation and
/// returns nothing; nothing is claimed of the task afterwards.
#[verifier::external_body]
fn abort_task(handle: tokio::task::JoinHandle<()>) {
    handle.abort();
}

impl Player {
    /// Whether the player has no destroy task yet, so that one may be started.
    pub fn needs_destroy_timer(&self) -> (r: bool)
        ensures
            r == (self.destroy_handle is None),
    {
        self.destroy_handle.is_none()
    }

    /// Keeps the handle of the task that destroys the player after a while.
    pub fn arm_destroy(&mut self, handle: tokio::task::JoinHandle<()>)
        requires
            old(self).destroy_handle is None,
        ensures
            final(self).destroy_handle == Some(handle),
            final(self).queue == old(self).queue,
            final(self).current_track == old(self).current_track,
            final(self).loop_mode == old(self).loop_mode,
            final(self).paused == old(self).paused,
            final(self).node_id == old(self).node_id,
            final(self).channel_id == old(self).channel_id,
            final(self).message_id == old(self).message_id,
            final(self).locale == old(self).locale,
    {
        self.destroy_handle = Some(handle);
    }

    /// Cancel the destroy task for the player, if it has one.
    pub fn cancel_destroy(&mut self)
        ensures
            final(self).destroy_handle is None,
            final(self).queue == old(self).queue,
            final(self).current_track == old(self).current_track,
            final(self).loop_mode == old(self).loop_mode,
            final(self).paused == old(self).paused,
            final(self).node_id == old(self).node_id,
            final(self).channel_id == old(self).channel_id,
            final(self).message_id == old(self).message_id,
            final(self).locale == old(self).locale,
    {
        if let Some(handle) = self.destroy_handle.take() {
            abort_task(handle);
        }
    }
}

/// Shuffles the tracks in place with the thread's random generator.
///
/// Calls `rand::seq::SliceRandom::shuffle` on the slice with `rand::rng()`. The contract
/// claims that the outcome is a permutation of the input, as the crate documents
/// (a uniformly chosen permutation); which permutation comes out is left open.
#[verifier::external_body]
fn shuffle_tracks(tracks: &mut Vec<Track>)
    ensures
        final(tracks)@.to_multiset() == old(tracks)@.to_multiset(),
{
    tracks.shuffle(&mut rand::rng());
}

impl Player {
    /// Shuffle the player's queue: the current track moves to the front and the
    /// other tracks are put in a random order after it.
    pub fn shuffle(&mut self)
        requires
            old(self).current_track < old(self).queue@.len(),
        ensures
            final(self).queue@.len() == old(self).queue@.len(),
            final(self).queue@.to_multiset() == old(self).queue@.to_multiset(),
            final(self).queue@[0] == old(self).queue@[old(self).current_track as int],
            final(self).current_track == 0,
            final(self).loop_mode == old(self).loop_mode,
            final(self).paused == old(self).paused,
            final(self).node_id == old(self).node_id,
            final(self).channel_id == old(self).channel_id,
            final(self).message_id == old(self).message_id,
            final(self).locale == old(self).locale,
            final(self).destroy_handle == old(self).destroy_handle,
    {
        broadcast use vstd::seq_lib::group_to_multiset_ensures;

        let ghost before = self.queue@;
        let old_index = self.current_track;
        let current_track = self.queue.swap_remove(old_index);
        proof {
            let updated = before.update(old_index as int, before.last());
            vstd::seq_lib::to_multiset_update(before, old_index as int, before.last());
            vstd::seq_lib::to_multiset_remove(updated, updated.len() - 1);
            assert(updated.remove(updated.len() - 1) =~= updated.drop_last());
            assert(updated[updated.len() - 1] == before.last());
            assert(self.queue@.to_multiset() =~= before.to_multiset().remove(current_track));
        }
        let ghost rest = self.queue@;
        shuffle_tracks(&mut self.queue);
        proof {
            vstd::seq_lib::to_multiset_len(rest);
            vstd::seq_lib::to_multiset_len(self.queue@);
        }
        self.queue.insert(0, current_track);
        proof {
            vstd::seq_lib::to_multiset_insert(self.queue@.remove(0), 0, current_track);
            assert(self.queue@.remove(0).insert(0, current_track) =~= self.queue@);
            vstd::seq_lib::to_multiset_len(before);
            assert(before.to_multiset().count(current_track) > 0);
            assert(self.queue@.to_multiset() =~= before.to_multiset());
        }
        self.current_track = 0;
    }
}

/// Represents the state of the player.
#[derive(Debug, Clone)]
pub struct PlayerState {
    /// Whether the player is paused.
    pub paused: bool,
    /// Whether the player has a destroy handle.
    pub has_destroy_handle: bool,
    /// The channel ID of the player.
    pub text_channel: Option<u64>,
    /// The message ID of the player.
    pub message_id: Option<u64>,
    /// The locale of the player.
    pub locale: String,
    /// The track currently playing.
    pub track: Option<Track>,
    /// The ID of the node used by this player.
    pub node_id: usize,
    /// The loop mode of the player.
    pub loop_mode: LoopMode,
}

impl PlayerState {
    /// The state of a player.
    pub fn from_player(player: &Player) -> (r: Self)
        ensures
            r.paused == player.paused,
            r.has_destroy_handle == player.destroy_handle is Some,
            r.text_channel == player.channel_id,
            r.message_id == player.message_id,
            r.locale == player.locale,
            r.track == track_at(player.queue@, player.current_track as int),
            r.node_id == player.node_id,
            r.loop_mode == player.loop_mode,
    {
        Self {
            paused: player.paused,
            has_destroy_handle: player.destroy_handle.is_some(),
            text_channel: player.channel_id,
            message_id: player.message_id,
            locale: player.locale.clone(),
            track: player.get_current_track(),
            node_id: player.node_id,
            loop_mode: player.loop_mode,
        }
    }

    /// The state of a player that is given up, taking its current track.
    pub fn from_owned(player: Player) -> (r: Self)
        ensures
            r.paused == player.paused,
            r.has_destroy_handle == player.destroy_handle is Some,
            r.text_channel == player.channel_id,
            r.message_id == player.message_id,
            r.locale == player.locale,
            r.track == track_at(player.queue@, player.current_track as int),
            r.node_id == player.node_id,
            r.loop_mode == player.loop_mode,
    {
        let mut player = player;
        let track = if player.queue.len() > player.current_track {
            Some(player.queue.remove(player.current_track))
        } else {
            None
        };
        Self {
            paused: player.paused,
            has_destroy_handle: player.destroy_handle.is_some(),
            text_channel: player.channel_id,
            message_id: player.message_id,
            locale: player.locale,
            track,
            node_id: player.node_id,
            loop_mode: player.loop_mode,
        }
    }
}

/// Play result information.
#[derive(Debug, Clone)]
pub struct PlayResult {
    /// The track that will be played.
    pub track: Option<Track>,
    /// The amount of tracks that will be played.
    pub count: usize,
    /// If the player is playing.
    pub playing: bool,
    /// If the queue was truncated.
    pub truncated: bool,
}

impl PlayResult {
    /// Merge the results of adding tracks and syncing the player.
    pub fn merge(add_queue_result: AddQueueResult, sync_result: SyncResult) -> (r: Self)
        ensures
            r == (PlayResult {
                track: sync_result.track,
                count: add_queue_result.count,
                playing: sync_result.playing,
                truncated: add_queue_result.truncated,
            }),
    {
        Self {
            track: sync_result.track,
            count: add_queue_result.count,
            playing: sync_result.playing,
            truncated: add_queue_result.truncated,
        }
    }
}

/// Seek result information.
#[derive(Debug, Clone, Copy, PartialEq, Eq, Structural)]
pub struct SeekResult {
    /// The position of the track in milliseconds.
    pub position: u64,
    /// The total duration of the track in milliseconds.
    pub total: u64,
}

impl SeekResult {
    /// The result of seeking to `position` milliseconds in a track of `total` milliseconds:
    /// the position is held to the track's length.
    pub fn clamped(position: u64, total: u64) -> (r: Self)
        ensures
            r.position == (if position > total { total } else { position }),
            r.total == total,
    {
        SeekResult { position: if position > total { total } else { position }, total }
    }
}

/// Templates for player creation.
#[derive(Debug, Clone, Copy, PartialEq, Eq, Structural)]
pub enum PlayerTemplate {
    /// Default player with pause disabled and no loop.
    Default,
    /// Player for playing music with single loop.
    Music,
    /// Player for playing a queue with all loop.
    Queue,
    /// Player for manual control with automatic pause.
    Manual,
    /// Player for RPG music with single loop and paused by default.
    Rpg,
}

/// The loop mode a template starts a player with.
pub open spec fn template_loop_mode(t: PlayerTemplate) -> LoopMode {
    match t {
        PlayerTemplate::Music | PlayerTemplate::Rpg => LoopMode::Single,
        PlayerTemplate::Queue => LoopMode::All,
        PlayerTemplate::Manual => LoopMode::AutoPause,
        PlayerTemplate::Default => LoopMode::Normal,
    }
}

/// Whether a template starts a player paused.
pub open spec fn template_pause(t: PlayerTemplate) -> bool {
    t == PlayerTemplate::Manual || t == PlayerTemplate::Rpg
}

impl PlayerTemplate {
    /// If the player should be paused by default.
    pub fn pause(&self) -> (r: bool)
        ensures
            r == template_pause(*self),
    {
        matches!(self, Self::Manual | Self::Rpg)
    }

    /// The loop mode for the player.
    pub fn loop_mode(&self) -> (r: LoopMode)
        ensures
            r == template_loop_mode(*self),
    {
        match self {
            Self::Music | Self::Rpg => LoopMode::Single,
            Self::Queue => LoopMode::All,
            Self::Manual => LoopMode::AutoPause,
            _ => LoopMode::Normal,
        }
    }

    /// Convert the template into a player.
    pub fn into_player(self, node_id: usize, locale: &str, channel_id: u64) -> (r: Player)
        ensures
            r.channel_id == Some(channel_id),
            r.message_id is None,
            r.queue@.len() == 0,
            r.current_track == 0,
            r.loop_mode == template_loop_mode(self),
            r.paused == template_pause(self),
            r.node_id == node_id,
            r.locale@ == locale@,
            r.destroy_handle is None,
    {
        Player::new(node_id, locale, channel_id, self.loop_mode(), self.pause())
    }
}

impl Default for PlayerTemplate {
    fn default() -> (r: Self)
        ensures
            r == PlayerTemplate::Default,
    {
        Self::Default
    }
}

/// Result of fetching tracks.
#[derive(Debug, Clone)]
pub struct FetchResult {
    /// The selected track.
    pub selected: Option<usize>,
    /// The tracks fetched.
    pub tracks: Vec<model::Track>,
}

/// Result of adding tracks to the queue.
#[derive(Debug, Clone, Copy, PartialEq, Eq, Structural)]
pub struct AddQueueResult {
    /// The track index that was selected to be played.
    pub selected: Option<usize>,
    /// The index of the first track added.
    pub first_track_index: usize,
    /// The amount of tracks that were added.
    pub count: usize,
    /// If the queue was truncated.
    pub truncated: bool,
}

/// Operation to add tracks to the queue.
#[derive(Debug, Clone, Copy, PartialEq, Eq, Structural)]
pub enum AddQueueOperation {
    /// Add the track to the end of the queue.
    End,
    /// Add the tracks right after the current track (at the end when the player has no current track in its queue).
    Next,
}

impl Default for AddQueueOperation {
    fn default() -> (r: Self)
        ensures
            r == AddQueueOperation::End,
    {
        Self::End
    }
}

/// Result of syncing the player.
#[derive(Debug, Clone)]
pub struct SyncResult {
    /// The track that will be played.
    pub track: Option<Track>,
    /// If the player has started playing.
    pub playing: bool,
}

/// The mode to play the track.
#[derive(Debug, Clone, Copy, PartialEq, Eq, Structural)]
pub enum PlayMode {
    /// Add the track to the end of the queue.
    AddToEnd,
    /// Add the track to the next of the current track.
    AddToNext,
    /// Play the track now.
    PlayNow,
}

impl Default for PlayMode {
    fn default() -> (r: Self)
        ensures
            r == PlayMode::AddToEnd,
    {
        Self::AddToEnd
    }
}

impl PlayMode {
    /// Where a play request in this mode puts the fetched tracks.
    pub fn add_queue_operation(&self) -> (r: AddQueueOperation)
        ensures
            r == (if *self == PlayMode::AddToEnd { AddQueueOperation::End } else { AddQueueOperation::Next }),
    {
        match self {
            PlayMode::AddToEnd => AddQueueOperation::End,
            _ => AddQueueOperation::Next,
        }
    }

    /// Whether a play request in this mode starts the selected track even when another plays.
    pub fn is_forced(&self) -> (r: bool)
        ensures
            r == (*self == PlayMode::PlayNow),
    {
        matches!(self, PlayMode::PlayNow)
    }
}

/// A request to play something.
#[derive(Debug, Clone)]
pub struct PlayRequest<'a> {
    /// The track to play.
    pub music: &'a str,
    /// The requester of the track.
    pub requester: u64,
    /// The guild ID of the player.
    pub guild_id: u64,
    /// The text channel of the player.
    pub text_channel: u64,
    /// Locale for the player's messages.
    pub locale: &'a str,
    /// The player template to use.
    pub player_template: PlayerTemplate,
    /// The mode to play the track.
    pub play_mode: PlayMode,
}

} // verus!
