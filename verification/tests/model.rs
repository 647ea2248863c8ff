use std::collections::HashMap;

use hydrogen::model::{
    BalancingIpRoutePlanner, Error, Event, EventKind, FailingAddress, IPBlock, LavalinkResult, LoadResult,
    LoadResultKind, NanoIpRoutePlanner, RotatingIpRoutePlanner, RotatingNanoIpRoutePlanner, RoutePlanner,
    RoutePlannerKind, Track, TrackInfo, TrackStuckEvent, UpdatePlayerTrack, VoiceState,
};

fn track() -> Track {
    Track {
        encoded: "enc".to_string(),
        info: TrackInfo {
            identifier: "id".to_string(),
            is_seekable: true,
            author: "a".to_string(),
            length: 10,
            is_stream: false,
            position: 0,
            title: "t".to_string(),
            uri: None,
            artwork_url: None,
            isrc: None,
            source_name: None,
        },
        plugin_info: HashMap::new(),
        user_data: HashMap::new(),
    }
}

fn failing() -> Vec<FailingAddress> {
    vec![FailingAddress { failing_address: "1.2.3.4".to_string(), failing_timestamp: 5, failing_time: "now".to_string() }]
}

#[test]
fn load_result_kinds_and_conversions() {
    let r = LoadResult::Track(track());
    assert_eq!(r.kind(), LoadResultKind::Track);
    assert!(r.is_track() && !r.is_playlist() && !r.is_search() && !r.is_empty() && !r.is_error());
    assert_eq!(r.as_track().unwrap().encoded, "enc");
    assert!(r.as_search().is_none());
    assert_eq!(r.to_track().unwrap().info.title, "t");
    let r = LoadResult::Search(vec![track(), track()]);
    assert_eq!(r.kind(), LoadResultKind::Search);
    assert_eq!(r.as_search().unwrap().len(), 2);
    assert!(r.clone().to_playlist().is_none());
    assert_eq!(r.to_search().unwrap().len(), 2);
    assert_eq!(LoadResult::Empty.kind(), LoadResultKind::Empty);
    assert!(LoadResult::Empty.is_empty());
    assert!(LoadResult::Empty.to_error().is_none());
}

#[test]
fn lavalink_results_convert() {
    let ok: LavalinkResult<u32> = LavalinkResult::Success(3);
    assert_eq!(ok.into_result().unwrap(), 3);
    let err: LavalinkResult<u32> = LavalinkResult::Failure(Error {
        timestamp: 1,
        status: 404,
        error: "Not Found".to_string(),
        trace: None,
        message: "no".to_string(),
        path: "/v4/x".to_string(),
    });
    assert_eq!(err.into_result().unwrap_err().status, 404);
}

#[test]
fn event_accessors() {
    let e = Event::TrackStuck(TrackStuckEvent { guild_id: "9".to_string(), track: track(), threshold_ms: 100 });
    assert_eq!(e.kind(), EventKind::TrackStuck);
    assert_eq!(e.guild_id(), "9");
    assert_eq!(e.track().unwrap().encoded, "enc");
    assert!(e.is_track_stuck() && !e.is_track_end());
    assert!(e.as_track_start().is_none());
    assert_eq!(e.as_track_stuck().unwrap().threshold_ms, 100);
    assert_eq!(e.to_track_stuck().unwrap().guild_id, "9");
}

#[test]
fn route_planner_accessors() {
    let rotating = RoutePlanner::Rotating(RotatingIpRoutePlanner {
        ip_block: IPBlock::Inet4("1.0.0.0/8".to_string()),
        failing_addresses: failing(),
        rotate_index: "1".to_string(),
        ip_index: "2".to_string(),
        current_address: "1.0.0.2".to_string(),
    });
    assert_eq!(rotating.kind(), RoutePlannerKind::Rotating);
    assert!(rotating.is_rotating() && !rotating.is_nano());
    assert_eq!(rotating.ip_block().inner(), "1.0.0.0/8");
    assert_eq!(rotating.failing_addresses().len(), 1);
    assert_eq!(rotating.current_address_index(), None);
    assert_eq!(rotating.as_rotating().unwrap().ip_index, "2");
    assert!(rotating.clone().to_balancing().is_none());

    let nano = RoutePlanner::Nano(NanoIpRoutePlanner {
        ip_block: IPBlock::Inet6("::/64".to_string()),
        failing_addresses: vec![],
        current_address_index: "7".to_string(),
    });
    assert_eq!(nano.kind(), RoutePlannerKind::Nano);
    assert_eq!(nano.current_address_index(), Some(&"7".to_string()));
    assert_eq!(nano.clone().to_nano().unwrap().current_address_index, "7");

    let rotating_nano = RoutePlanner::RotatingNano(RotatingNanoIpRoutePlanner {
        ip_block: IPBlock::Inet6("::/48".to_string()),
        failing_addresses: vec![],
        current_address_index: "8".to_string(),
        block_index: "3".to_string(),
    });
    assert!(rotating_nano.is_rotating_nano());
    assert_eq!(rotating_nano.current_address_index(), Some(&"8".to_string()));
    assert_eq!(rotating_nano.as_rotating_nano().unwrap().block_index, "3");

    let balancing = RoutePlanner::Balancing(BalancingIpRoutePlanner {
        ip_block: IPBlock::Inet4("2.0.0.0/8".to_string()),
        failing_addresses: failing(),
    });
    assert!(balancing.is_balancing());
    assert_eq!(balancing.kind(), RoutePlannerKind::Balancing);
    assert_eq!(balancing.current_address_index(), None);
    assert_eq!(balancing.ip_block().clone().into_inner(), "2.0.0.0/8");
    assert!(balancing.as_nano().is_none());
}

#[test]
fn player_update_parts() {
    let v = VoiceState::new("tok", "end", "sess");
    assert_eq!((v.token.as_str(), v.endpoint.as_str(), v.session_id.as_str()), ("tok", "end", "sess"));
    let track = UpdatePlayerTrack::empty().set_encoded("abc");
    assert_eq!(track.encoded, Some(Some("abc".to_string())));
    assert!(UpdatePlayerTrack::empty().encoded.is_none());
}
