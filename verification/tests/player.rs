use std::collections::HashMap;

use hydrogen::model;
use hydrogen::player::{
    AddQueueOperation, FetchResult, LoopMode, PlayMode, PlayResult, Player, PlayerState, PlayerTemplate,
    SeekResult, SyncResult, Track, AddQueueResult, HYDROGEN_QUEUE_LIMIT, DEFAULT_REQUESTER,
};

fn lavalink_track(name: &str) -> model::Track {
    model::Track {
        encoded: format!("enc-{}", name),
        info: model::TrackInfo {
            identifier: name.to_string(),
            is_seekable: true,
            author: format!("author-{}", name),
            length: 1000,
            is_stream: false,
            position: 0,
            title: format!("title-{}", name),
            uri: Some(format!("https://example.com/{}", name)),
            artwork_url: None,
            isrc: None,
            source_name: None,
        },
        plugin_info: HashMap::new(),
        user_data: HashMap::new(),
    }
}

fn fetch(names: &[&str], selected: Option<usize>) -> FetchResult {
    FetchResult { selected, tracks: names.iter().map(|n| lavalink_track(n)).collect() }
}

fn titles(player: &Player) -> Vec<String> {
    player.queue.iter().map(|t| t.title.clone()).collect()
}

#[test]
fn loop_mode_cycles_through_all_modes() {
    let mut mode = LoopMode::Normal;
    let mut seen = vec![mode];
    for _ in 0..3 {
        mode = mode.next();
        seen.push(mode);
    }
    assert_eq!(seen, vec![LoopMode::Normal, LoopMode::Single, LoopMode::All, LoopMode::AutoPause]);
    assert_eq!(mode.next(), LoopMode::Normal);
    assert_eq!(LoopMode::Normal.emoji(), "➡️");
    assert_eq!(LoopMode::Single.emoji(), "🔂");
    assert_eq!(LoopMode::All.emoji(), "🔁");
    assert_eq!(LoopMode::AutoPause.emoji(), "↩️");
}

#[test]
fn track_from_lavalink_track() {
    let track = Track::from_track(lavalink_track("a"), 42);
    assert_eq!(track.track, "enc-a");
    assert_eq!(track.title, "title-a");
    assert_eq!(track.author, "author-a");
    assert_eq!(track.requester, 42);
    assert_eq!(track.duration, 1000);
    assert_eq!(track.url, Some("https://example.com/a".to_string()));
    assert_eq!(track.thumbnail, None);
    let default: Track = lavalink_track("b").into();
    assert_eq!(default.requester, DEFAULT_REQUESTER);
}

#[test]
fn add_queue_to_end() {
    let mut player = Player::new_normal(0, "en_US", 7);
    let r = player.add_queue(fetch(&["a", "b"], None), 5, AddQueueOperation::End);
    assert_eq!(r, AddQueueResult { selected: None, first_track_index: 0, count: 2, truncated: false });
    let r = player.add_queue(fetch(&["c"], Some(0)), 5, AddQueueOperation::End);
    assert_eq!(r, AddQueueResult { selected: Some(2), first_track_index: 2, count: 1, truncated: false });
    assert_eq!(titles(&player), vec!["title-a", "title-b", "title-c"]);
    assert!(player.queue.iter().all(|t| t.requester == 5));
}

#[test]
fn add_queue_next_keeps_current_track() {
    let mut player = Player::new_normal(0, "en_US", 7);
    player.add_queue(fetch(&["a", "b", "c"], None), 1, AddQueueOperation::End);
    player.current_track = 1;
    let r = player.add_queue(fetch(&["x", "y"], Some(1)), 2, AddQueueOperation::Next);
    assert_eq!(r, AddQueueResult { selected: Some(3), first_track_index: 2, count: 2, truncated: false });
    assert_eq!(titles(&player), vec!["title-a", "title-b", "title-x", "title-y", "title-c"]);
    assert_eq!(player.get_current_track().unwrap().title, "title-b");
}

#[test]
fn add_queue_selected_out_of_range_falls_back_to_first() {
    let mut player = Player::new_normal(0, "en_US", 7);
    let r = player.add_queue(fetch(&["a", "b"], Some(9)), 1, AddQueueOperation::End);
    assert_eq!(r.selected, Some(0));
}

#[test]
fn add_queue_truncates_at_the_limit() {
    let mut player = Player::new_normal(0, "en_US", 7);
    let names: Vec<String> = (0..HYDROGEN_QUEUE_LIMIT - 1).map(|i| i.to_string()).collect();
    let refs: Vec<&str> = names.iter().map(|s| s.as_str()).collect();
    let r = player.add_queue(fetch(&refs, None), 1, AddQueueOperation::End);
    assert_eq!(r.count, HYDROGEN_QUEUE_LIMIT - 1);
    let r = player.add_queue(fetch(&["x", "y", "z"], None), 1, AddQueueOperation::End);
    assert_eq!(r, AddQueueResult { selected: None, first_track_index: HYDROGEN_QUEUE_LIMIT - 1, count: 1, truncated: true });
    assert_eq!(player.queue.len(), HYDROGEN_QUEUE_LIMIT);
    let r = player.add_queue(fetch(&["w"], Some(0)), 1, AddQueueOperation::End);
    assert_eq!(r, AddQueueResult { selected: None, first_track_index: HYDROGEN_QUEUE_LIMIT, count: 0, truncated: true });
    assert_eq!(player.queue.len(), HYDROGEN_QUEUE_LIMIT);
}

fn player_with(n: usize, current: usize, mode: LoopMode) -> Player {
    let mut player = Player::new(3, "en_US", 7, mode, false);
    let names: Vec<String> = (0..n).map(|i| i.to_string()).collect();
    let refs: Vec<&str> = names.iter().map(|s| s.as_str()).collect();
    player.add_queue(fetch(&refs, None), 1, AddQueueOperation::End);
    player.current_track = current;
    player
}

#[test]
fn next_track_follows_the_loop_mode() {
    let mut p = player_with(3, 1, LoopMode::Normal);
    assert!(p.next_track());
    assert_eq!((p.current_track, p.paused), (2, false));
    assert!(!p.next_track());
    assert_eq!((p.current_track, p.paused), (2, false));

    let mut p = player_with(3, 1, LoopMode::Single);
    assert!(p.next_track());
    assert_eq!(p.current_track, 1);

    let mut p = player_with(3, 2, LoopMode::All);
    assert!(p.next_track());
    assert_eq!(p.current_track, 0);

    let mut p = player_with(3, 0, LoopMode::AutoPause);
    assert!(!p.next_track());
    assert_eq!((p.current_track, p.paused), (1, true));
    let mut p = player_with(3, 2, LoopMode::AutoPause);
    assert!(!p.next_track());
    assert_eq!((p.current_track, p.paused), (2, true));
}

#[test]
fn previous_undoes_skip() {
    let mut p = player_with(3, 2, LoopMode::Normal);
    assert_eq!(p.skip().unwrap().title, "title-0");
    assert_eq!(p.current_track, 0);
    assert_eq!(p.previous().unwrap().title, "title-2");
    assert_eq!(p.current_track, 2);
    let mut p = player_with(3, 1, LoopMode::Normal);
    p.previous();
    p.skip();
    assert_eq!(p.current_track, 1);
}

#[test]
fn apply_pause_only_pauses_a_playing_player() {
    let mut p = player_with(2, 0, LoopMode::Normal);
    assert!(p.apply_pause(true, true));
    assert!(p.paused);
    assert!(!p.apply_pause(true, false));
    assert!(!p.paused);
    assert!(!p.apply_pause(false, true));
}

#[test]
fn shuffle_keeps_tracks_and_puts_current_first() {
    let mut p = player_with(20, 7, LoopMode::Normal);
    let mut before = titles(&p);
    p.shuffle();
    assert_eq!(p.current_track, 0);
    assert_eq!(p.queue[0].title, "title-7");
    let mut after = titles(&p);
    before.sort();
    after.sort();
    assert_eq!(before, after);
}

#[test]
fn sync_request_names_the_current_track() {
    let p = player_with(2, 1, LoopMode::Normal);
    assert_eq!(p.sync_request(), Some(("enc-1".to_string(), false, 3)));
    let p = player_with(2, 5, LoopMode::Normal);
    assert_eq!(p.sync_request(), None);
}

#[test]
fn prepare_update_sync_decides_when_to_restart() {
    let mut p = player_with(3, 0, LoopMode::Normal);
    assert!(p.prepare_update_sync(2, false, false));
    assert_eq!(p.current_track, 2);
    let mut p = player_with(3, 0, LoopMode::Normal);
    assert!(!p.prepare_update_sync(2, true, false));
    assert_eq!(p.current_track, 0);
    let mut p = player_with(3, 0, LoopMode::Single);
    assert!(!p.prepare_update_sync(2, false, false));
    let mut p = player_with(3, 0, LoopMode::Single);
    assert!(p.prepare_update_sync(1, true, true));
    assert_eq!(p.current_track, 1);
    let mut p = player_with(3, 0, LoopMode::All);
    assert!(!p.prepare_update_sync(3, false, true));
}

#[test]
fn sync_result_reports_the_track() {
    let p = player_with(3, 1, LoopMode::Normal);
    let r: SyncResult = p.sync_result(2, false);
    assert_eq!(r.track.unwrap().title, "title-2");
    assert!(!r.playing);
    let r = p.sync_result(9, true);
    assert_eq!(r.track.unwrap().title, "title-1");
    assert!(p.sync_result(9, false).track.is_none());
}

#[test]
fn templates_set_pause_and_loop() {
    assert!(!PlayerTemplate::Default.pause());
    assert_eq!(PlayerTemplate::Default.loop_mode(), LoopMode::Normal);
    assert_eq!(PlayerTemplate::Music.loop_mode(), LoopMode::Single);
    assert_eq!(PlayerTemplate::Queue.loop_mode(), LoopMode::All);
    assert!(PlayerTemplate::Manual.pause());
    assert_eq!(PlayerTemplate::Manual.loop_mode(), LoopMode::AutoPause);
    assert!(PlayerTemplate::Rpg.pause());
    assert_eq!(PlayerTemplate::Rpg.loop_mode(), LoopMode::Single);
    let p = PlayerTemplate::Rpg.into_player(2, "pt_BR", 9);
    assert!(p.paused);
    assert_eq!(p.loop_mode, LoopMode::Single);
    assert_eq!(p.node_id, 2);
    assert_eq!(p.locale, "pt_BR");
    assert_eq!(p.channel_id, Some(9));
    assert_eq!(PlayerTemplate::default(), PlayerTemplate::Default);
}

#[test]
fn play_modes() {
    assert_eq!(PlayMode::default(), PlayMode::AddToEnd);
    assert_eq!(PlayMode::AddToEnd.add_queue_operation(), AddQueueOperation::End);
    assert_eq!(PlayMode::AddToNext.add_queue_operation(), AddQueueOperation::Next);
    assert_eq!(PlayMode::PlayNow.add_queue_operation(), AddQueueOperation::Next);
    assert!(PlayMode::PlayNow.is_forced());
    assert!(!PlayMode::AddToNext.is_forced());
    assert_eq!(AddQueueOperation::default(), AddQueueOperation::End);
}

#[test]
fn seek_is_held_to_the_track_length() {
    assert_eq!(SeekResult::clamped(5000, 3000), SeekResult { position: 3000, total: 3000 });
    assert_eq!(SeekResult::clamped(1000, 3000), SeekResult { position: 1000, total: 3000 });
}

#[test]
fn play_result_merges_queue_and_sync() {
    let add = AddQueueResult { selected: None, first_track_index: 0, count: 4, truncated: true };
    let sync = SyncResult { track: None, playing: true };
    let r = PlayResult::merge(add, sync);
    assert_eq!((r.count, r.playing, r.truncated), (4, true, true));
    assert!(r.track.is_none());
}

#[test]
fn player_state_of_a_player() {
    let p = player_with(2, 1, LoopMode::All);
    let s = PlayerState::from_player(&p);
    assert_eq!(s.track.unwrap().title, "title-1");
    assert_eq!((s.node_id, s.loop_mode, s.has_destroy_handle), (3, LoopMode::All, false));
    let s = PlayerState::from_owned(player_with(2, 4, LoopMode::All));
    assert!(s.track.is_none());
}

#[test]
fn destroy_timer_is_armed_and_cancelled() {
    let runtime = tokio::runtime::Runtime::new().unwrap();
    let mut p = player_with(1, 0, LoopMode::Normal);
    assert!(p.needs_destroy_timer());
    let handle = runtime.spawn(async {
        tokio::time::sleep(std::time::Duration::from_secs(3600)).await;
    });
    p.arm_destroy(handle);
    assert!(!p.needs_destroy_timer());
    assert!(PlayerState::from_player(&p).has_destroy_handle);
    p.cancel_destroy();
    assert!(p.needs_destroy_timer());
    p.cancel_destroy();
    assert!(p.destroy_handle.is_none());
}

#[test]
fn add_queue_next_on_a_fresh_player_starts_the_queue() {
    let mut player = Player::new_normal(0, "en_US", 7);
    let r = player.add_queue(fetch(&["a", "b"], Some(1)), 3, AddQueueOperation::Next);
    assert_eq!(r, AddQueueResult { selected: Some(1), first_track_index: 0, count: 2, truncated: false });
    assert_eq!(titles(&player), vec!["title-a", "title-b"]);
    let r = player.add_queue(fetch(&["c"], None), 3, AddQueueOperation::Next);
    assert_eq!(r.first_track_index, 1);
    assert_eq!(titles(&player), vec!["title-a", "title-c", "title-b"]);
}
