use std::collections::HashMap;

use hydrogen::handler::{first_reply_step, next_reply_step, ReplyStep};
use hydrogen::manager::{
    alone_in_channel, chosen_result, hydrogen_search_prefixes, plan_voice_state, playing_state, search_queries,
    server_voice_state, VoiceStatePlan,
};
use hydrogen::message::{
    author_icon, author_name, author_requester, first_message_step, generate_components, generate_message, generate_thumbnail, generate_title, generate_url,
    next_message_step, ButtonStyle, MessageStep, PlayerMessageState, HYDROGEN_EMPTY_CHAT_TIMEOUT,
};
use hydrogen::model::{
    Exception, LoadResult, LoadResultPlaylist, PlaylistInfo, Severity, Track as LavalinkTrack, TrackInfo,
};
use hydrogen::player::{AddQueueResult, FetchResult, LoopMode, PlayResult, PlayerState, Track};
use hydrogen::response::{Response, ResponseType, ResponseValue, HYDROGEN_ERROR_COLOR, HYDROGEN_PRIMARY_COLOR};
use hydrogen::routes::{http_base, player_path, players_path, response_has_body, session_path, websocket_scheme};

fn lavalink_track(name: &str) -> LavalinkTrack {
    LavalinkTrack {
        encoded: name.to_string(),
        info: TrackInfo {
            identifier: name.to_string(),
            is_seekable: true,
            author: "a".to_string(),
            length: 1,
            is_stream: false,
            position: 0,
            title: name.to_string(),
            uri: None,
            artwork_url: None,
            isrc: None,
            source_name: None,
        },
        plugin_info: HashMap::new(),
        user_data: HashMap::new(),
    }
}

#[test]
fn reply_delivery_steps() {
    assert_eq!(first_reply_step(true), ReplyStep::EditResponse);
    assert_eq!(first_reply_step(false), ReplyStep::CreateFollowup);
    assert_eq!(next_reply_step(ReplyStep::EditResponse, true), ReplyStep::Remember);
    assert_eq!(next_reply_step(ReplyStep::EditResponse, false), ReplyStep::CreateFollowup);
    assert_eq!(next_reply_step(ReplyStep::CreateFollowup, true), ReplyStep::Remember);
    assert_eq!(next_reply_step(ReplyStep::CreateFollowup, false), ReplyStep::GiveUp);
    assert_eq!(next_reply_step(ReplyStep::GiveUp, true), ReplyStep::GiveUp);
}

#[test]
fn message_update_steps() {
    assert_eq!(first_message_step(Some(1), Some(2)), MessageStep::Edit(1, 2));
    assert_eq!(first_message_step(Some(1), None), MessageStep::Send(1));
    assert_eq!(first_message_step(None, Some(2)), MessageStep::Done(None, Some(2)));
    assert_eq!(next_message_step(MessageStep::Edit(1, 2), Some(3)), MessageStep::Done(Some(1), Some(3)));
    assert_eq!(next_message_step(MessageStep::Edit(1, 2), None), MessageStep::Send(1));
    assert_eq!(next_message_step(MessageStep::Send(1), Some(4)), MessageStep::Done(Some(1), Some(4)));
    assert_eq!(next_message_step(MessageStep::Send(1), None), MessageStep::Done(None, None));
}

fn state(destroy: bool, track: Option<Track>, loop_mode: LoopMode, paused: bool) -> PlayerState {
    PlayerState {
        paused,
        has_destroy_handle: destroy,
        text_channel: Some(1),
        message_id: None,
        locale: "en_US".to_string(),
        track,
        node_id: 0,
        loop_mode,
    }
}

fn track() -> Track {
    Track {
        track: "enc".to_string(),
        author: "Band".to_string(),
        title: "Song".to_string(),
        requester: 1,
        duration: 1,
        url: Some("https://u".to_string()),
        thumbnail: Some("https://img".to_string()),
    }
}

#[test]
fn player_message_texts() {
    let t = track();
    let playing = state(false, Some(t.clone()), LoopMode::Normal, false);
    assert_eq!(generate_title(&playing, Some(&t)), Some("**Song**".to_string()));
    assert_eq!(generate_message(&playing, Some(&t)), "Band");
    assert_eq!(generate_url(&playing, Some(&t)), Some("https://u".to_string()));
    assert_eq!(generate_thumbnail(&playing, Some(&t)), Some("https://img".to_string()));
    let empty = state(false, None, LoopMode::Normal, false);
    assert_eq!(generate_title(&empty, None), None);
    assert_eq!(generate_message(&empty, None), "_There's nothing currently playing._");
    let leaving = state(true, Some(t.clone()), LoopMode::Normal, false);
    assert_eq!(generate_title(&leaving, Some(&t)), None);
    assert_eq!(generate_url(&leaving, Some(&t)), None);
    assert_eq!(generate_thumbnail(&leaving, Some(&t)), None);
    assert_eq!(
        generate_message(&leaving, Some(&t)),
        "There's no one else connected to me in the voice chat. I will leave in 10 seconds."
    );
    assert_eq!(HYDROGEN_EMPTY_CHAT_TIMEOUT, 10);
}

#[test]
fn player_message_state_and_buttons() {
    let t = track();
    assert_eq!(PlayerMessageState::detect_state(Some(&t), true), PlayerMessageState::Thinking);
    assert_eq!(PlayerMessageState::detect_state(Some(&t), false), PlayerMessageState::Playing);
    assert_eq!(PlayerMessageState::detect_state(None, false), PlayerMessageState::Empty);
    assert!(PlayerMessageState::Empty._is_empty());
    assert!(PlayerMessageState::Playing.is_playing());
    assert!(PlayerMessageState::Thinking.is_thinking());

    let s = state(false, Some(t.clone()), LoopMode::All, false);
    let c = generate_components(&s, &PlayerMessageState::Playing, true);
    assert_eq!((c.pause.emoji, c.pause.disabled, c.pause.style), ("⏸", false, ButtonStyle::Primary));
    assert_eq!((c.loop_mode.emoji, c.loop_mode.custom_id), ("↩️", "loop"));
    assert_eq!((c.stop.style, c.stop.disabled), (ButtonStyle::Danger, false));
    let c = generate_components(&s, &PlayerMessageState::Thinking, false);
    assert_eq!((c.prev.style, c.prev.disabled, c.pause.emoji), (ButtonStyle::Secondary, true, "▶"));
    assert!(c.stop.disabled && c.loop_mode.disabled && c.shuffle.disabled);
    let paused = state(false, Some(t), LoopMode::Normal, true);
    let c = generate_components(&paused, &PlayerMessageState::Playing, true);
    assert_eq!(c.pause.emoji, "▶");
    assert_eq!(c.loop_mode.emoji, "🔂");
}

#[test]
fn responses_render() {
    let r = Response::new("play.name", "error.unknown", ResponseType::Error).render("pt_BR");
    assert_eq!(r.title, "tocar");
    assert_eq!(r.description, "Um erro estranho ocorreu!");
    assert_eq!(r.color, HYDROGEN_ERROR_COLOR);
    assert_eq!(r.footer, "Hydrogen by Nashira Deer");
    let response = Response::new("a", "b", ResponseType::Success);
    assert_eq!(response.response_type, ResponseType::Success);
    assert_eq!(response.title, ResponseValue::TranslationKey("a"));
    let r = Response::raw(ResponseValue::Raw("T"), ResponseValue::RawString("D".to_string()), ResponseType::Success)
        .render("en_US");
    assert_eq!((r.title.as_str(), r.description.as_str(), r.color), ("T", "D", HYDROGEN_PRIMARY_COLOR));
    assert_eq!(ResponseValue::TranslationKey("play.name").into_value("en_US"), "play");
    assert_eq!(ResponseType::Success.into_color(), 0x5865f2);
}

#[test]
fn search_queries_and_choice() {
    assert_eq!(hydrogen_search_prefixes(), vec!["spsearch:", "ytsearch:", "dzsearch:", "scsearch:"]);
    assert_eq!(
        search_queries("song"),
        vec!["song", "spsearch:song", "ytsearch:song", "dzsearch:song", "scsearch:song"]
    );
    assert_eq!(chosen_result(&vec![true, true, false, false]), 2);
    assert_eq!(chosen_result(&vec![false, true]), 0);
    assert_eq!(chosen_result(&vec![true, true, true]), 0);
}

#[test]
fn load_results_to_fetch_results() {
    let search = LoadResult::Search(vec![lavalink_track("a"), lavalink_track("b")]);
    let f = FetchResult::from_load_result(search).unwrap();
    assert_eq!((f.selected, f.tracks.len(), f.tracks[0].encoded.as_str()), (None, 1, "a"));
    assert!(FetchResult::from_load_result(LoadResult::Search(vec![])).is_none());
    let playlist = LoadResult::Playlist(LoadResultPlaylist {
        info: PlaylistInfo { name: "p".to_string(), selected_track: 1 },
        plugin_info: HashMap::new(),
        tracks: vec![lavalink_track("a"), lavalink_track("b")],
    });
    let f = FetchResult::from_load_result(playlist).unwrap();
    assert_eq!((f.selected, f.tracks.len()), (Some(1), 2));
    let unselected = LoadResult::Playlist(LoadResultPlaylist {
        info: PlaylistInfo { name: "p".to_string(), selected_track: -1 },
        plugin_info: HashMap::new(),
        tracks: vec![],
    });
    assert_eq!(FetchResult::from_load_result(unselected).unwrap().selected, None);
    let f = FetchResult::from_load_result(LoadResult::Track(lavalink_track("x"))).unwrap();
    assert_eq!((f.selected, f.tracks.len()), (None, 1));
    assert!(FetchResult::from_load_result(LoadResult::Empty).is_none());
    let error = LoadResult::Error(Exception { message: None, severity: Severity::Common, cause: "c".to_string() });
    assert!(FetchResult::from_load_result(error).is_none());
}

#[test]
fn play_decisions() {
    let add = AddQueueResult { selected: Some(4), first_track_index: 2, count: 3, truncated: false };
    assert_eq!(add.start_index(), 4);
    let add = AddQueueResult { selected: None, first_track_index: 2, count: 3, truncated: false };
    assert_eq!(add.start_index(), 2);
    let none = PlayResult::nothing_found();
    assert_eq!((none.count, none.playing, none.truncated, none.track.is_none()), (0, false, false, true));
    assert!(playing_state(true, Some(true)));
    assert!(!playing_state(true, Some(false)));
    assert!(!playing_state(true, None));
    assert!(!playing_state(false, Some(true)));
}

#[test]
fn voice_state_plans() {
    assert_eq!(
        plan_voice_state(true, None, true, Some(5)),
        VoiceStatePlan { destroy: true, update_connection: false, watch_channel: None }
    );
    assert_eq!(
        plan_voice_state(true, Some(3), true, Some(5)),
        VoiceStatePlan { destroy: false, update_connection: true, watch_channel: Some(3) }
    );
    assert_eq!(
        plan_voice_state(true, Some(3), false, None),
        VoiceStatePlan { destroy: false, update_connection: false, watch_channel: Some(3) }
    );
    assert_eq!(
        plan_voice_state(false, None, true, Some(5)),
        VoiceStatePlan { destroy: false, update_connection: false, watch_channel: Some(5) }
    );
    assert!(alone_in_channel(0));
    assert!(alone_in_channel(1));
    assert!(!alone_in_channel(2));
    let v = server_voice_state("tok", Some("end"), Some("sess")).unwrap();
    assert_eq!((v.token.as_str(), v.endpoint.as_str(), v.session_id.as_str()), ("tok", "end", "sess"));
    assert!(server_voice_state("tok", None, Some("sess")).is_none());
    assert!(server_voice_state("tok", Some("end"), None).is_none());
}

#[test]
fn rest_routes() {
    assert_eq!(http_base("localhost:2333", false), "http://localhost:2333");
    assert_eq!(http_base("h:443", true), "https://h:443");
    assert_eq!(websocket_scheme(true), "wss");
    assert_eq!(websocket_scheme(false), "ws");
    assert_eq!(players_path("abc"), "/v4/sessions/abc/players");
    assert_eq!(player_path("abc", "42"), "/v4/sessions/abc/players/42");
    assert_eq!(session_path("abc"), "/v4/sessions/abc");
    assert!(!response_has_body(204));
    assert!(!response_has_body(404));
    assert!(response_has_body(200));
    assert!(response_has_body(400));
}

#[test]
fn player_message_author() {
    let t = track();
    assert_eq!(author_requester(&state(false, Some(t.clone()), LoopMode::Normal, false)), Some(1));
    assert_eq!(author_requester(&state(true, Some(t), LoopMode::Normal, false)), None);
    assert_eq!(author_requester(&state(false, None, LoopMode::Normal, false)), None);
    let user = Some((Some("Global".to_string()), "user".to_string()));
    assert_eq!(author_name(Some("Nick".to_string()), user.clone()), Some("Nick".to_string()));
    assert_eq!(author_name(None, user), Some("Global".to_string()));
    assert_eq!(author_name(None, Some((None, "user".to_string()))), Some("user".to_string()));
    assert_eq!(author_name(None, None), None);
    assert_eq!(author_icon(Some("m".to_string()), Some("u".to_string())), Some("m".to_string()));
    assert_eq!(author_icon(None, Some("u".to_string())), Some("u".to_string()));
    assert_eq!(author_icon(None, None), None);
}
