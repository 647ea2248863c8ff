use hydrogen::player::{LoopMode, PlayMode, PlayResult, PlayerTemplate, Track};
use hydrogen::replies::{
    check_channels, generate_message, join_reply, loop_option, loop_reply_key, pause_reply_key, play_command_mention,
    play_mode_option, play_reply, prev_reply, seek_reply, skip_reply, template_option, track_message,
};

fn track(url: Option<&str>) -> Track {
    Track {
        track: "enc".to_string(),
        author: "Band".to_string(),
        title: "Song".to_string(),
        requester: 1,
        duration: 1000,
        url: url.map(|u| u.to_string()),
        thumbnail: None,
    }
}

fn result(track: Option<Track>, count: usize, playing: bool, truncated: bool) -> PlayResult {
    PlayResult { track, count, playing, truncated }
}

const WARN: &str = "**Warning: I need to exclude some songs from your playlist because it exceeds the allowed limit.**";

#[test]
fn play_reply_when_nothing_was_added() {
    assert_eq!(play_reply("en_US", &result(None, 0, false, false)), "I can't find the requested song.");
    assert_eq!(
        play_reply("en_US", &result(None, 0, false, true)),
        "You can't add more songs to the queue as it's already at the allowed limit. Please remove some songs before trying again."
    );
}

#[test]
fn play_reply_for_one_track() {
    assert_eq!(
        play_reply("en_US", &result(Some(track(None)), 1, true, false)),
        "Playing: **Song** by **Band**."
    );
    assert_eq!(
        play_reply("en_US", &result(Some(track(Some("https://x.y/z"))), 1, true, false)),
        "Playing: [**Song**](https://x.y/z) by **Band**."
    );
    assert_eq!(
        play_reply("en_US", &result(Some(track(None)), 1, false, false)),
        "**Song** by **Band** has been added to the queue."
    );
    assert_eq!(
        play_reply("pt_BR", &result(Some(track(Some("u"))), 1, false, false)),
        "[**Song**](<u>) por **Band** foi adicionado na fila."
    );
}

#[test]
fn play_reply_for_many_tracks() {
    assert_eq!(
        play_reply("en_US", &result(Some(track(None)), 12, true, false)),
        "**12** songs from your playlist have been queued, **Song** from **Band** has been selected to play now."
    );
    assert_eq!(
        play_reply("en_US", &result(Some(track(Some("u"))), 3, true, true)),
        format!(
            "{}\n\n{}",
            WARN,
            "**3** songs from your playlist have been queued, [**Song**](u) from **Band** has been selected to play now."
        )
    );
    assert_eq!(
        play_reply("en_US", &result(Some(track(None)), 5, false, false)),
        "**5** songs from your playlist have been queued."
    );
    assert_eq!(
        play_reply("en_US", &result(None, 1000, false, true)),
        format!("{}\n\n{}", WARN, "**1000** songs from your playlist have been queued.")
    );
    assert_eq!(generate_message("en_US", &result(None, 2, true, false)), "**2** songs from your playlist have been queued.");
}

#[test]
fn track_messages() {
    assert_eq!(skip_reply("en_US", &Some(track(None))), "Skipping to the song **Song** by **Band**.");
    assert_eq!(
        skip_reply("en_US", &Some(track(Some("u")))),
        "Skipping to the song [**Song**](u) by **Band**."
    );
    assert_eq!(skip_reply("en_US", &None), "There are no songs in the queue.");
    assert_eq!(prev_reply("pt_BR", &Some(track(None))), "Voltando para a música **Song** por **Band**.");
    assert_eq!(prev_reply("pt_BR", &None), "Não há músicas na fila.");
    assert_eq!(track_message("en_US", "x.{0}", "y.{1}.{2}", &track(Some("u"))), "y.Band.u");
}

#[test]
fn channel_checks() {
    assert_eq!(check_channels(None, Some(1)), Err("error.unknown_voice_state"));
    assert_eq!(check_channels(Some(1), None), Err("error.player_not_exists"));
    assert_eq!(check_channels(Some(1), Some(2)), Err("error.not_in_voice_chat"));
    assert_eq!(check_channels(Some(3), Some(3)), Ok(()));
}

#[test]
fn seek_reply_shows_position() {
    assert_eq!(seek_reply("en_US", &track(None), "01:00", "03:00", "bar"), "**Song**\nBand\n``01:00/03:00``\nbar");
    assert_eq!(
        seek_reply("en_US", &track(Some("u")), "01:00", "03:00", "bar"),
        "[**Song**](u)\nBand\n``01:00/03:00``\nbar"
    );
    assert_eq!(
        seek_reply("pt_BR", &track(Some("u")), "01:00", "03:00", "bar"),
        "[**Song**](<u>)\nBand\n``01:00/03:00``\nbar"
    );
}

#[test]
fn pause_and_loop_keys() {
    assert_eq!(pause_reply_key(true), "pause.paused");
    assert_eq!(pause_reply_key(false), "pause.resumed");
    assert_eq!(loop_option(Some("single")), LoopMode::Single);
    assert_eq!(loop_option(Some("all")), LoopMode::All);
    assert_eq!(loop_option(Some("auto_pause")), LoopMode::AutoPause);
    assert_eq!(loop_option(Some("autoplay")), LoopMode::Normal);
    assert_eq!(loop_option(None), LoopMode::Normal);
    assert_eq!(loop_reply_key(LoopMode::Normal), "loop.normal");
    assert_eq!(loop_reply_key(LoopMode::AutoPause), "loop.pause");
    assert_eq!(loop_reply_key(LoopMode::Single), "loop.music");
    assert_eq!(loop_reply_key(LoopMode::All), "loop.queue");
}

#[test]
fn join_template_and_reply() {
    assert_eq!(template_option(Some("music")), PlayerTemplate::Music);
    assert_eq!(template_option(Some("queue")), PlayerTemplate::Queue);
    assert_eq!(template_option(Some("manual")), PlayerTemplate::Manual);
    assert_eq!(template_option(Some("rpg")), PlayerTemplate::Rpg);
    assert_eq!(template_option(Some("other")), PlayerTemplate::Default);
    assert_eq!(template_option(None), PlayerTemplate::Default);
    assert_eq!(play_command_mention(Some(123)), "</play:123>");
    assert_eq!(play_command_mention(None), "`/play`");
    assert_eq!(
        join_reply("en_US", Some(42)),
        "I have joined your voice channel, and now you can request any music using </play:42>."
    );
    assert_eq!(
        join_reply("pt_BR", None),
        "Eu entrei no seu chat de voz, e agora você pode pedir qualquer música usando `/play`."
    );
}

#[test]
fn play_mode_option_reads_the_mode() {
    assert_eq!(play_mode_option(Some("next")), PlayMode::AddToNext);
    assert_eq!(play_mode_option(Some("now")), PlayMode::PlayNow);
    assert_eq!(play_mode_option(Some("end")), PlayMode::AddToEnd);
    assert_eq!(play_mode_option(None), PlayMode::AddToEnd);
}
