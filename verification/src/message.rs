//! What the player message shows: its state, title, description, link, thumbnail
//! and the control buttons under it.

use crate::i18n::{fill_vars, t, t_vars, translate, var_texts};
use crate::player::{copy_text, next_loop_mode, loop_mode_emoji, PlayerState, Track};
use vstd::prelude::*;

verus! {

/// Time in seconds to wait before exit from an empty voice channel.
pub const HYDROGEN_EMPTY_CHAT_TIMEOUT: u64 = 10;

/// Represents the state of the player message.
#[derive(Debug, Clone, Copy, PartialEq, Eq, Structural)]
pub enum PlayerMessageState {
    /// The player is empty.
    Empty,
    /// The player is playing.
    Playing,
    /// The player is thinking.
    Thinking,
}

impl PlayerMessageState {
    /// Detects the state of the player: thinking above all, else playing when it has a track.
    pub fn detect_state(track: Option<&Track>, thinking: bool) -> (r: Self)
        ensures
            r == (if thinking {
                PlayerMessageState::Thinking
            } else if track is Some {
                PlayerMessageState::Playing
            } else {
                PlayerMessageState::Empty
            }),
    {
        if thinking {
            Self::Thinking
        } else if track.is_some() {
            Self::Playing
        } else {
            Self::Empty
        }
    }

    /// Returns whether the player is empty.
    pub fn _is_empty(&self) -> (r: bool)
        ensures
            r == (*self == PlayerMessageState::Empty),
    {
        matches!(self, Self::Empty)
    }

    /// Returns whether the player is playing.
    pub fn is_playing(&self) -> (r: bool)
        ensures
            r == (*self == PlayerMessageState::Playing),
    {
        matches!(self, Self::Playing)
    }

    /// Returns whether the player is thinking.
    pub fn is_thinking(&self) -> (r: bool)
        ensures
            r == (*self == PlayerMessageState::Thinking),
    {
        matches!(self, Self::Thinking)
    }
}

/// The title of the player message: the track's title in bold, unless the player is
/// about to leave or has no track.
pub fn generate_title(player: &PlayerState, track: Option<&Track>) -> (r: Option<String>)
    ensures
        r matches Some(title) ==> !player.has_destroy_handle && track is Some
            && title@ == "**"@ + track.unwrap().title@ + "**"@,
        r is None ==> player.has_destroy_handle || track is None,
{
    if !player.has_destroy_handle {
        match track {
            Some(track) => Some(String::from_str("**").concat(track.title.as_str()).concat("**")),
            None => None,
        }
    } else {
        None
    }
}

/// The description of the player message: the leave notice when the player is about
/// to leave, else the track's author, else the notice that nothing plays.
pub fn generate_message(player: &PlayerState, track: Option<&Track>) -> (r: String)
    ensures
        r@ == (if player.has_destroy_handle {
            fill_vars(translate(player.locale@, "player.timeout"@), seq![("time"@, "10"@), ("0"@, "10"@)])
        } else {
            match track {
                Some(t) => t.author@,
                None => translate(player.locale@, "player.empty"@),
            }
        }),
{
    if player.has_destroy_handle {
        let vars = [("time", "10"), ("0", "10")];
        proof {
            assert(var_texts(vars@) =~= seq![("time"@, "10"@), ("0"@, "10"@)]);
        }
        t_vars(player.locale.as_str(), "player.timeout", &vars)
    } else {
        match track {
            Some(track) => track.author.clone(),
            None => String::from_str(t(player.locale.as_str(), "player.empty")),
        }
    }
}

/// The link of the player message: the track's URL, unless the player is about to leave.
pub fn generate_url(player: &PlayerState, track: Option<&Track>) -> (r: Option<String>)
    ensures
        r == (if !player.has_destroy_handle && track is Some { track.unwrap().url } else { None }),
{
    if !player.has_destroy_handle {
        match track {
            Some(track) => copy_text(&track.url),
            None => None,
        }
    } else {
        None
    }
}

/// The thumbnail of the player message: the track's thumbnail, unless the player is about to leave.
pub fn generate_thumbnail(player: &PlayerState, track: Option<&Track>) -> (r: Option<String>)
    ensures
        r == (if !player.has_destroy_handle && track is Some { track.unwrap().thumbnail } else { None }),
{
    if !player.has_destroy_handle {
        match track {
            Some(track) => copy_text(&track.thumbnail),
            None => None,
        }
    } else {
        None
    }
}

/// Whose name the player message shows as its author: the requester of the track,
/// unless the player is about to leave or has no track.
pub fn author_requester(player: &PlayerState) -> (r: Option<u64>)
    ensures
        r == (if !player.has_destroy_handle && player.track is Some {
            Some(player.track.unwrap().requester)
        } else {
            None
        }),
{
    if player.has_destroy_handle {
        return None;
    }
    match &player.track {
        Some(track) => Some(track.requester),
        None => None,
    }
}

/// The name the author shows: the requester's nickname in the guild, else their
/// global name, else their user name; none when the requester could not be found.
/// `user` holds the requester's global name and user name, if they were found.
pub fn author_name(nick: Option<String>, user: Option<(Option<String>, String)>) -> (r: Option<String>)
    ensures
        r == match nick {
            Some(n) => Some(n),
            None => match user {
                Some((global, name)) => match global {
                    Some(g) => Some(g),
                    None => Some(name),
                },
                None => None,
            },
        },
{
    match nick {
        Some(n) => Some(n),
        None => match user {
            Some((global, name)) => match global {
                Some(g) => Some(g),
                None => Some(name),
            },
            None => None,
        },
    }
}

/// The icon the author shows: the requester's guild avatar, else their user avatar.
pub fn author_icon(member_avatar: Option<String>, user_avatar: Option<String>) -> (r: Option<String>)
    ensures
        r == match member_avatar {
            Some(a) => Some(a),
            None => user_avatar,
        },
{
    match member_avatar {
        Some(a) => Some(a),
        None => user_avatar,
    }
}

/// The look of a button.
#[derive(Debug, Clone, Copy, PartialEq, Eq, Structural)]
pub enum ButtonStyle {
    /// The main color.
    Primary,
    /// A neutral color.
    Secondary,
    /// The color of destructive actions.
    Danger,
}

/// A button under the player message.
#[derive(Debug, Clone, Copy, PartialEq, Eq)]
pub struct ButtonSpec {
    /// The id the button answers to.
    pub custom_id: &'static str,
    /// Whether the button can't be pressed.
    pub disabled: bool,
    /// The emoji shown on the button.
    pub emoji: &'static str,
    /// The look of the button.
    pub style: ButtonStyle,
}

/// The buttons under the player message, in two rows: previous, pause and skip; loop, stop and shuffle.
#[derive(Debug, Clone, Copy, PartialEq, Eq)]
pub struct PlayerControls {
    /// Goes back to the previous track.
    pub prev: ButtonSpec,
    /// Pauses or resumes the player.
    pub pause: ButtonSpec,
    /// Skips to the next track.
    pub skip: ButtonSpec,
    /// Switches to the next loop mode.
    pub loop_mode: ButtonSpec,
    /// Stops the player.
    pub stop: ButtonSpec,
    /// Shuffles the queue.
    pub shuffle: ButtonSpec,
}

/// Whether `b` is the button `id` with the given emoji, style and state.
pub open spec fn button_is(b: ButtonSpec, id: Seq<char>, emoji: Seq<char>, style: ButtonStyle, disabled: bool) -> bool {
    b.custom_id@ == id && b.emoji@ == emoji && b.style == style && b.disabled == disabled
}

/// Generates the control buttons for the player message.
///
/// The first row is grey while the player thinks and only works while it plays; the
/// pause button shows play when paused or not playing. The loop button shows the mode
/// it switches to; loop and stop work unless the player thinks.
pub fn generate_components(player: &PlayerState, state: &PlayerMessageState, playing: bool) -> (r: PlayerControls)
    ensures
        ({
            let main = if *state == PlayerMessageState::Thinking { ButtonStyle::Secondary } else { ButtonStyle::Primary };
            let idle = *state != PlayerMessageState::Playing;
            let thinking = *state == PlayerMessageState::Thinking;
            &&& button_is(r.prev, "prev"@, "⏮"@, main, idle)
            &&& button_is(r.pause, "pause"@, if player.paused || !playing { "▶"@ } else { "⏸"@ }, main, idle)
            &&& button_is(r.skip, "skip"@, "⏭"@, main, idle)
            &&& button_is(r.loop_mode, "loop"@, loop_mode_emoji(next_loop_mode(player.loop_mode)), ButtonStyle::Secondary, thinking)
            &&& button_is(r.stop, "stop"@, "⏹"@, ButtonStyle::Danger, thinking)
            &&& button_is(r.shuffle, "shuffle"@, "🔀"@, ButtonStyle::Secondary, idle)
        }),
{
    let main_row_style = if state.is_thinking() {
        ButtonStyle::Secondary
    } else {
        ButtonStyle::Primary
    };
    let idle = !state.is_playing();
    let thinking = state.is_thinking();
    let pause_icon = if player.paused || !playing {
        "▶"
    } else {
        "⏸"
    };
    PlayerControls {
        prev: ButtonSpec { custom_id: "prev", disabled: idle, emoji: "⏮", style: main_row_style },
        pause: ButtonSpec { custom_id: "pause", disabled: idle, emoji: pause_icon, style: main_row_style },
        skip: ButtonSpec { custom_id: "skip", disabled: idle, emoji: "⏭", style: main_row_style },
        loop_mode: ButtonSpec {
            custom_id: "loop",
            disabled: thinking,
            emoji: player.loop_mode.next().emoji(),
            style: ButtonStyle::Secondary,
        },
        stop: ButtonSpec { custom_id: "stop", disabled: thinking, emoji: "⏹", style: ButtonStyle::Danger },
        shuffle: ButtonSpec { custom_id: "shuffle", disabled: idle, emoji: "🔀", style: ButtonStyle::Secondary },
    }
}

/// A step of updating the player message in its text channel.
#[derive(Debug, Clone, Copy, PartialEq, Eq, Structural)]
pub enum MessageStep {
    /// Edit the message already sent: the text channel and the message.
    Edit(u64, u64),
    /// Send a new message in the text channel.
    Send(u64),
    /// Done: the text channel and the message the player keeps.
    Done(Option<u64>, Option<u64>),
}

/// The first step of updating the player message: edit the message the player has,
/// else send one; a player without a text channel keeps what it has.
pub open spec fn initial_message_step(text_channel: Option<u64>, message_id: Option<u64>) -> MessageStep {
    match text_channel {
        Some(channel) => match message_id {
            Some(message) => MessageStep::Edit(channel, message),
            None => MessageStep::Send(channel),
        },
        None => MessageStep::Done(text_channel, message_id),
    }
}

/// The step after `step`, given the id of the message that Discord answered, if it
/// answered one: an edit that fails falls back to sending a new message, and a send
/// that fails leaves the player with neither channel nor message.
pub open spec fn message_step_after(step: MessageStep, answered: Option<u64>) -> MessageStep {
    match step {
        MessageStep::Edit(channel, _) => match answered {
            Some(id) => MessageStep::Done(Some(channel), Some(id)),
            None => MessageStep::Send(channel),
        },
        MessageStep::Send(channel) => match answered {
            Some(id) => MessageStep::Done(Some(channel), Some(id)),
            None => MessageStep::Done(None, None),
        },
        MessageStep::Done(c, m) => MessageStep::Done(c, m),
    }
}

/// The first step of updating the player message.
pub fn first_message_step(text_channel: Option<u64>, message_id: Option<u64>) -> (r: MessageStep)
    ensures
        r == initial_message_step(text_channel, message_id),
{
    match text_channel {
        Some(channel) => match message_id {
            Some(message) => MessageStep::Edit(channel, message),
            None => MessageStep::Send(channel),
        },
        None => MessageStep::Done(text_channel, message_id),
    }
}

/// The step of updating the player message that follows `step`.
pub fn next_message_step(step: MessageStep, answered: Option<u64>) -> (r: MessageStep)
    ensures
        r == message_step_after(step, answered),
{
    match step {
        MessageStep::Edit(channel, _) => match answered {
            Some(id) => MessageStep::Done(Some(channel), Some(id)),
            None => MessageStep::Send(channel),
        },
        MessageStep::Send(channel) => match answered {
            Some(id) => MessageStep::Done(Some(channel), Some(id)),
            None => MessageStep::Done(None, None),
        },
        MessageStep::Done(c, m) => MessageStep::Done(c, m),
    }
}

/// Whatever Discord answers, an update of the player message is done within two
/// answers, and the message the player then keeps lives in the player's own text channel.
pub proof fn lemma_message_update_ends(text_channel: Option<u64>, message_id: Option<u64>, first: Option<u64>, second: Option<u64>)
    ensures
        ({
            let done = message_step_after(
                message_step_after(initial_message_step(text_channel, message_id), first),
                second,
            );
            &&& done is Done
            &&& (done matches MessageStep::Done(Some(c), _) ==> Some(c) == text_channel)
        }),
{
}

} // verus!
