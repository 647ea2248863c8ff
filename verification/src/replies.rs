//! What the bot answers to the commands and buttons: the checks every player
//! command makes first, the options it reads and the text of its reply.
//!
//! The English texts name their placeholders (`{name}`, `{author}`, ...) and the
//! Portuguese texts number them (`{0}`, `{1}`, ...), so every reply supplies each
//! value under its name and then under its number.

use crate::i18n::{fill_vars, same_text, t, t_vars, translate, var_texts};
use crate::player::{LoopMode, PlayMode, PlayResult, PlayerTemplate, Track};
use crate::text::{decimal, decimal_text};
use crate::time_parsers::{_semicolon_syntax, _suffix_syntax, semicolon_time, suffix_time};
use vstd::prelude::*;

verus! {

/// The variables of a text that names a track: its title and author, and its URL
/// when it has one, by name and then by number.
pub open spec fn track_vars(track: Track) -> Seq<(Seq<char>, Seq<char>)> {
    match track.url {
        Some(url) => seq![
            ("name"@, track.title@),
            ("author"@, track.author@),
            ("url"@, url@),
            ("0"@, track.title@),
            ("1"@, track.author@),
            ("2"@, url@),
        ],
        None => seq![("name"@, track.title@), ("author"@, track.author@), ("0"@, track.title@), ("1"@, track.author@)],
    }
}

/// The text of `key` naming a track; when the track has a URL the text of `url_key`.
pub open spec fn track_text(lang: Seq<char>, key: Seq<char>, url_key: Seq<char>, track: Track) -> Seq<char> {
    fill_vars(translate(lang, if track.url is Some { url_key } else { key }), track_vars(track))
}

/// A translated text that names a track, linked when it has a URL.
pub fn track_message(lang: &str, key: &str, url_key: &str, track: &Track) -> (r: String)
    ensures
        r@ == track_text(lang@, key@, url_key@, *track),
{
    let title = track.title.as_str();
    let author = track.author.as_str();
    match &track.url {
        Some(url) => {
            let url = url.as_str();
            let vars = [("name", title), ("author", author), ("url", url), ("0", title), ("1", author), ("2", url)];
            proof {
                assert(var_texts(vars@) =~= track_vars(*track));
            }
            t_vars(lang, url_key, &vars)
        },
        None => {
            let vars = [("name", title), ("author", author), ("0", title), ("1", author)];
            proof {
                assert(var_texts(vars@) =~= track_vars(*track));
            }
            t_vars(lang, key, &vars)
        },
    }
}

/// A reply that starts with the warning that the playlist was cut short.
pub open spec fn warned(lang: Seq<char>, message: Seq<char>) -> Seq<char> {
    translate(lang, "play.truncated_warn"@) + "\n\n"@ + message
}

/// The variables of the reply to a request that queued `count` tracks and started `track`.
pub open spec fn multi_vars(track: Track, count: nat) -> Seq<(Seq<char>, Seq<char>)> {
    match track.url {
        Some(url) => seq![
            ("name"@, track.title@),
            ("author"@, track.author@),
            ("count"@, decimal(count)),
            ("url"@, url@),
            ("0"@, track.title@),
            ("1"@, track.author@),
            ("2"@, decimal(count)),
            ("3"@, url@),
        ],
        None => seq![
            ("name"@, track.title@),
            ("author"@, track.author@),
            ("count"@, decimal(count)),
            ("0"@, track.title@),
            ("1"@, track.author@),
            ("2"@, decimal(count)),
        ],
    }
}

/// The reply to a request that put several tracks in the queue and started one of them.
pub open spec fn play_multi_text(lang: Seq<char>, track: Track, count: nat) -> Seq<char> {
    fill_vars(
        translate(lang, if track.url is Some { "play.play_multi_url"@ } else { "play.play_multi"@ }),
        multi_vars(track, count),
    )
}

/// The reply to a request that put several tracks in the queue without starting one.
pub open spec fn enqueue_multi_text(lang: Seq<char>, count: nat) -> Seq<char> {
    fill_vars(translate(lang, "play.enqueue_multi"@), seq![("count"@, decimal(count)), ("0"@, decimal(count))])
}

/// The reply to `/play` once the tracks were added: one track is named, being
/// played or queued; several tracks are counted, naming the one that starts.
/// A playlist that was cut short is announced by a warning first.
pub open spec fn play_message_text(lang: Seq<char>, result: PlayResult) -> Seq<char> {
    let single = result.count == 1;
    let rest = if result.truncated {
        warned(lang, enqueue_multi_text(lang, result.count as nat))
    } else {
        enqueue_multi_text(lang, result.count as nat)
    };
    match result.track {
        Some(track) => if result.playing && single {
            track_text(lang, "play.play_single"@, "play.play_single_url"@, track)
        } else if single {
            track_text(lang, "play.enqueue_single"@, "play.enqueue_single_url"@, track)
        } else if result.playing {
            if result.truncated {
                warned(lang, play_multi_text(lang, track, result.count as nat))
            } else {
                play_multi_text(lang, track, result.count as nat)
            }
        } else {
            rest
        },
        None => rest,
    }
}

/// The reply to `/play`: when nothing was added, whether nothing was found or the
/// queue is full; else the message about what was added.
pub open spec fn play_reply_text(lang: Seq<char>, result: PlayResult) -> Seq<char> {
    if result.count > 0 {
        play_message_text(lang, result)
    } else if !result.truncated {
        translate(lang, "play.not_found"@)
    } else {
        translate(lang, "play.truncated"@)
    }
}

/// Puts the warning that the playlist was cut short before `message`.
fn with_warning(lang: &str, message: String) -> (r: String)
    ensures
        r@ == warned(lang@, message@),
{
    String::from_str(t(lang, "play.truncated_warn")).concat("\n\n").concat(message.as_str())
}

/// The reply to a request that put several tracks in the queue and started one of them.
fn play_multi_message(lang: &str, track: &Track, count: usize) -> (r: String)
    ensures
        r@ == play_multi_text(lang@, *track, count as nat),
{
    let count_text = decimal_text(count as u64);
    let count_str = count_text.as_str();
    let title = track.title.as_str();
    let author = track.author.as_str();
    match &track.url {
        Some(url) => {
            let url = url.as_str();
            let vars = [
                ("name", title),
                ("author", author),
                ("count", count_str),
                ("url", url),
                ("0", title),
                ("1", author),
                ("2", count_str),
                ("3", url),
            ];
            proof {
                assert(var_texts(vars@) =~= multi_vars(*track, count as nat));
            }
            t_vars(lang, "play.play_multi_url", &vars)
        },
        None => {
            let vars = [("name", title), ("author", author), ("count", count_str), ("0", title), ("1", author), ("2", count_str)];
            proof {
                assert(var_texts(vars@) =~= multi_vars(*track, count as nat));
            }
            t_vars(lang, "play.play_multi", &vars)
        },
    }
}

/// The reply to a request that put several tracks in the queue without starting one.
fn enqueue_multi_message(lang: &str, count: usize) -> (r: String)
    ensures
        r@ == enqueue_multi_text(lang@, count as nat),
{
    let count_text = decimal_text(count as u64);
    let vars = [("count", count_text.as_str()), ("0", count_text.as_str())];
    proof {
        assert(var_texts(vars@) =~= seq![("count"@, decimal(count as nat)), ("0"@, decimal(count as nat))]);
    }
    t_vars(lang, "play.enqueue_multi", &vars)
}

/// Generates the message from the result from the player.
pub fn generate_message(lang: &str, result: &PlayResult) -> (r: String)
    ensures
        r@ == play_message_text(lang@, *result),
{
    if let Some(track) = &result.track {
        if result.playing && result.count == 1 {
            return track_message(lang, "play.play_single", "play.play_single_url", track);
        } else if result.count == 1 {
            return track_message(lang, "play.enqueue_single", "play.enqueue_single_url", track);
        } else if result.playing {
            let message = play_multi_message(lang, track, result.count);
            return if result.truncated {
                with_warning(lang, message)
            } else {
                message
            };
        }
    }
    let message = enqueue_multi_message(lang, result.count);
    if result.truncated {
        with_warning(lang, message)
    } else {
        message
    }
}

/// The reply to `/play` for the result of the request.
pub fn play_reply(lang: &str, result: &PlayResult) -> (r: String)
    ensures
        r@ == play_reply_text(lang@, *result),
{
    if result.count > 0 {
        generate_message(lang, result)
    } else if !result.truncated {
        String::from_str(t(lang, "play.not_found"))
    } else {
        String::from_str(t(lang, "play.truncated"))
    }
}

/// Why a member cannot control the player from where they are, or nothing when
/// they can: they must be in a voice channel, there must be a player, and the
/// player must be in the member's channel.
pub open spec fn channel_refusal(user_channel: Option<u64>, my_channel: Option<u64>) -> Option<Seq<char>> {
    match user_channel {
        None => Some("error.unknown_voice_state"@),
        Some(user) => match my_channel {
            None => Some("error.player_not_exists"@),
            Some(mine) => if mine == user {
                None
            } else {
                Some("error.not_in_voice_chat"@)
            },
        },
    }
}

/// Checks that the member may control the player: `Ok` when the player is in the
/// member's voice channel, else the translation key of the refusal.
pub fn check_channels(user_channel: Option<u64>, my_channel: Option<u64>) -> (r: Result<(), &'static str>)
    ensures
        match channel_refusal(user_channel, my_channel) {
            None => r is Ok,
            Some(key) => r matches Err(k) && k@ == key,
        },
{
    match user_channel {
        None => Err("error.unknown_voice_state"),
        Some(user) => match my_channel {
            None => Err("error.player_not_exists"),
            Some(mine) => if mine == user {
                Ok(())
            } else {
                Err("error.not_in_voice_chat")
            },
        },
    }
}

/// The time a member asked for: the suffix syntax first, else the colon syntax.
pub open spec fn requested_time(text: Seq<char>) -> Option<u32> {
    match suffix_time(text) {
        Some(ms) => Some(ms),
        None => semicolon_time(text),
    }
}

/// Parses a time in one of the supported syntaxes into milliseconds.
pub fn parse_time(text: &str) -> (r: Option<u32>)
    ensures
        r == requested_time(text@),
{
    match _suffix_syntax(text) {
        Some(ms) => Some(ms),
        None => _semicolon_syntax(text),
    }
}

/// The variables of the reply to seeking: the track, the position, the length and
/// the progress bar, by name and then by number.
pub open spec fn seek_vars(track: Track, current: Seq<char>, total: Seq<char>, progress: Seq<char>) -> Seq<(Seq<char>, Seq<char>)> {
    let named = seq![
        ("name"@, track.title@),
        ("author"@, track.author@),
        ("current"@, current),
        ("total"@, total),
        ("progress"@, progress),
    ];
    let numbered = seq![("0"@, track.title@), ("1"@, track.author@), ("2"@, current), ("3"@, total), ("4"@, progress)];
    match track.url {
        Some(url) => named + seq![("url"@, url@)] + numbered + seq![("5"@, url@)],
        None => named + numbered,
    }
}

/// The reply to `/seek`: the track, the position, the length and the progress bar,
/// linked when the track has a URL.
pub fn seek_reply(lang: &str, track: &Track, current: &str, total: &str, progress: &str) -> (r: String)
    ensures
        r@ == fill_vars(
            translate(lang@, if track.url is Some { "seek.seeking_url"@ } else { "seek.seeking"@ }),
            seek_vars(*track, current@, total@, progress@),
        ),
{
    let title = track.title.as_str();
    let author = track.author.as_str();
    match &track.url {
        Some(url) => {
            let url = url.as_str();
            let vars = [
                ("name", title),
                ("author", author),
                ("current", current),
                ("total", total),
                ("progress", progress),
                ("url", url),
                ("0", title),
                ("1", author),
                ("2", current),
                ("3", total),
                ("4", progress),
                ("5", url),
            ];
            proof {
                assert(var_texts(vars@) =~= seek_vars(*track, current@, total@, progress@));
            }
            t_vars(lang, "seek.seeking_url", &vars)
        },
        None => {
            let vars = [
                ("name", title),
                ("author", author),
                ("current", current),
                ("total", total),
                ("progress", progress),
                ("0", title),
                ("1", author),
                ("2", current),
                ("3", total),
                ("4", progress),
            ];
            proof {
                assert(var_texts(vars@) =~= seek_vars(*track, current@, total@, progress@));
            }
            t_vars(lang, "seek.seeking", &vars)
        },
    }
}

/// The reply to skipping: the track skipped to, or that the queue is empty.
pub fn skip_reply(lang: &str, track: &Option<Track>) -> (r: String)
    ensures
        r@ == match *track {
            Some(next) => track_text(lang@, "skip.skipping"@, "skip.skipping_url"@, next),
            None => translate(lang@, "error.empty_queue"@),
        },
{
    match track {
        Some(next) => track_message(lang, "skip.skipping", "skip.skipping_url", next),
        None => String::from_str(t(lang, "error.empty_queue")),
    }
}

/// The reply to going back: the track returned to, or that the queue is empty.
pub fn prev_reply(lang: &str, track: &Option<Track>) -> (r: String)
    ensures
        r@ == match *track {
            Some(previous) => track_text(lang@, "prev.returning"@, "prev.returning_url"@, previous),
            None => translate(lang@, "error.empty_queue"@),
        },
{
    match track {
        Some(previous) => track_message(lang, "prev.returning", "prev.returning_url", previous),
        None => String::from_str(t(lang, "error.empty_queue")),
    }
}

/// The translation key of the reply to pausing, after the player was set to `paused`.
pub fn pause_reply_key(paused: bool) -> (r: &'static str)
    ensures
        r@ == (if paused { "pause.paused"@ } else { "pause.resumed"@ }),
{
    if paused {
        "pause.paused"
    } else {
        "pause.resumed"
    }
}

/// The loop mode chosen in the `/loop` option; no or another option means no loop.
pub open spec fn loop_choice(option: Option<Seq<char>>) -> LoopMode {
    match option {
        Some(o) => if o == "single"@ {
            LoopMode::Single
        } else if o == "all"@ {
            LoopMode::All
        } else if o == "auto_pause"@ {
            LoopMode::AutoPause
        } else {
            LoopMode::Normal
        },
        None => LoopMode::Normal,
    }
}

/// Reads the loop mode chosen in the `/loop` option.
pub fn loop_option(option: Option<&str>) -> (r: LoopMode)
    ensures
        r == loop_choice(match option { Some(o) => Some(o@), None => None }),
{
    match option {
        Some(o) => if same_text(o, "single") {
            LoopMode::Single
        } else if same_text(o, "all") {
            LoopMode::All
        } else if same_text(o, "auto_pause") {
            LoopMode::AutoPause
        } else {
            LoopMode::Normal
        },
        None => LoopMode::Normal,
    }
}

/// The translation key that tells what the loop mode `mode` does.
pub open spec fn loop_key(mode: LoopMode) -> Seq<char> {
    match mode {
        LoopMode::Normal => "loop.normal"@,
        LoopMode::AutoPause => "loop.pause"@,
        LoopMode::Single => "loop.music"@,
        LoopMode::All => "loop.queue"@,
    }
}

/// The translation key of the reply to setting the loop mode to `mode`.
pub fn loop_reply_key(mode: LoopMode) -> (r: &'static str)
    ensures
        r@ == loop_key(mode),
{
    match mode {
        LoopMode::Normal => "loop.normal",
        LoopMode::AutoPause => "loop.pause",
        LoopMode::Single => "loop.music",
        LoopMode::All => "loop.queue",
    }
}

/// The play mode chosen in the `/play` option: `next` and `now`; no or another
/// option adds to the end of the queue.
pub open spec fn play_mode_choice(option: Option<Seq<char>>) -> PlayMode {
    match option {
        Some(o) => if o == "next"@ {
            PlayMode::AddToNext
        } else if o == "now"@ {
            PlayMode::PlayNow
        } else {
            PlayMode::AddToEnd
        },
        None => PlayMode::AddToEnd,
    }
}

/// Reads the play mode chosen in the `/play` option.
pub fn play_mode_option(option: Option<&str>) -> (r: PlayMode)
    ensures
        r == play_mode_choice(match option { Some(o) => Some(o@), None => None }),
{
    match option {
        Some(o) => if same_text(o, "next") {
            PlayMode::AddToNext
        } else if same_text(o, "now") {
            PlayMode::PlayNow
        } else {
            PlayMode::AddToEnd
        },
        None => PlayMode::AddToEnd,
    }
}

/// The template chosen in the `/join` option; no or another option means the default.
pub open spec fn template_choice(option: Option<Seq<char>>) -> PlayerTemplate {
    match option {
        Some(o) => if o == "music"@ {
            PlayerTemplate::Music
        } else if o == "queue"@ {
            PlayerTemplate::Queue
        } else if o == "manual"@ {
            PlayerTemplate::Manual
        } else if o == "rpg"@ {
            PlayerTemplate::Rpg
        } else {
            PlayerTemplate::Default
        },
        None => PlayerTemplate::Default,
    }
}

/// Reads the template chosen in the `/join` option.
pub fn template_option(option: Option<&str>) -> (r: PlayerTemplate)
    ensures
        r == template_choice(match option { Some(o) => Some(o@), None => None }),
{
    match option {
        Some(o) => if same_text(o, "music") {
            PlayerTemplate::Music
        } else if same_text(o, "queue") {
            PlayerTemplate::Queue
        } else if same_text(o, "manual") {
            PlayerTemplate::Manual
        } else if same_text(o, "rpg") {
            PlayerTemplate::Rpg
        } else {
            PlayerTemplate::Default
        },
        None => PlayerTemplate::Default,
    }
}

/// How the reply to `/join` names the `/play` command: a command mention when its
/// id is known, else its name in code style.
pub open spec fn play_mention(command_id: Option<u64>) -> Seq<char> {
    match command_id {
        Some(id) => "</play:"@ + decimal(id as nat) + ">"@,
        None => "`/play`"@,
    }
}

/// The mention of the `/play` command.
pub fn play_command_mention(command_id: Option<u64>) -> (r: String)
    ensures
        r@ == play_mention(command_id),
{
    match command_id {
        Some(id) => String::from_str("</play:").concat(decimal_text(id).as_str()).concat(">"),
        None => String::from_str("`/play`"),
    }
}

/// The reply to `/join`: how to play music once the bot joined.
pub fn join_reply(lang: &str, play_command_id: Option<u64>) -> (r: String)
    ensures
        r@ == fill_vars(
            translate(lang@, "join.joined"@),
            seq![("play"@, play_mention(play_command_id)), ("0"@, play_mention(play_command_id))],
        ),
{
    let mention = play_command_mention(play_command_id);
    let vars = [("play", mention.as_str()), ("0", mention.as_str())];
    proof {
        assert(var_texts(vars@) =~= seq![("play"@, mention@), ("0"@, mention@)]);
    }
    t_vars(lang, "join.joined", &vars)
}

} // verus!
