use std::collections::HashMap;

use hydrogen::cluster::NodeRing;
use hydrogen::config::{keep_usable, usable_nodes, ConfigParser, NodeConfig};
use hydrogen::events::{is_spammy, migrate_players, parse_id, process_event, EventAction};
use hydrogen::model::{Event, MessageKind, Track, TrackEndEvent, TrackEndReason, TrackInfo, TrackStartEvent, WebSocketClosedEvent};

fn ring(connected: &[usize], n: usize) -> NodeRing {
    let mut ring = NodeRing::new(n);
    for &node in connected {
        ring.insert_session(node, format!("session-{}", node));
    }
    ring
}

#[test]
fn ring_starts_disconnected() {
    let ring = NodeRing::new(3);
    assert_eq!(ring.len(), 3);
    assert_eq!(ring.connected_nodes(), Vec::<usize>::new());
    assert_eq!(ring.disconnected_nodes(), vec![0, 1, 2]);
    assert_eq!(ring.current_index(), 0);
    assert!(ring.session_id(0).is_none());
}

#[test]
fn ring_records_sessions() {
    let ring = ring(&[2, 0], 4);
    assert_eq!(ring.connected_nodes(), vec![0, 2]);
    assert_eq!(ring.disconnected_nodes(), vec![1, 3]);
    assert_eq!(ring.session_id(2), Some(&"session-2".to_string()));
    assert!(ring.is_connected(0));
    assert!(!ring.is_connected(1));
    assert!(!ring.is_connected(9));
}

#[test]
fn round_robin_search_visits_connected_nodes() {
    let mut ring = ring(&[1, 2], 4);
    assert_eq!(ring.search_connected_node(), Some(1));
    assert_eq!(ring.current_index(), 2);
    assert_eq!(ring.search_connected_node(), Some(2));
    assert_eq!(ring.search_connected_node(), Some(1));
    let mut empty = ring_none();
    assert_eq!(empty.search_connected_node(), None);
    assert_eq!(empty.current_index(), 0);
    let mut none = NodeRing::new(0);
    assert_eq!(none.search_connected_node(), None);
}

fn ring_none() -> NodeRing {
    NodeRing::new(3)
}

#[test]
fn next_index_wraps_around() {
    let mut ring = NodeRing::new(2);
    assert_eq!(ring.next_index(), 0);
    assert_eq!(ring.next_index(), 1);
    assert_eq!(ring.next_index(), 0);
}

#[test]
fn migration_moves_players_of_the_lost_node() {
    let mut ring = ring(&[0, 2], 3);
    let plan = migrate_players(&mut ring, 1, &vec![1, 0, 1, 2]);
    assert_eq!(plan.moves, vec![Some(0), None, Some(2), None]);
    assert!(!plan.remove_lost);
    assert_eq!(ring.current_index(), 0);
}

#[test]
fn migration_removes_players_when_no_node_is_left() {
    let mut ring = NodeRing::new(2);
    let plan = migrate_players(&mut ring, 0, &vec![1, 0, 0]);
    assert_eq!(plan.moves, vec![None, None, None]);
    assert!(plan.remove_lost);
    let plan = migrate_players(&mut NodeRing::new(2), 0, &vec![1, 1]);
    assert!(!plan.remove_lost);
}

#[test]
fn parse_id_reads_unsigned_numbers() {
    assert_eq!(parse_id("123"), Some(123));
    assert_eq!(parse_id("+7"), Some(7));
    assert_eq!(parse_id("0"), Some(0));
    assert_eq!(parse_id("18446744073709551615"), Some(u64::MAX));
    assert_eq!(parse_id("18446744073709551616"), None);
    assert_eq!(parse_id(""), None);
    assert_eq!(parse_id("+"), None);
    assert_eq!(parse_id("-1"), None);
    assert_eq!(parse_id("12a"), None);
    assert_eq!(parse_id(" 1"), None);
    assert_eq!(parse_id(&u64::MAX.to_string()), Some(u64::MAX));
}

fn lavalink_track() -> Track {
    Track {
        encoded: "enc".to_string(),
        info: TrackInfo {
            identifier: "id".to_string(),
            is_seekable: true,
            author: "a".to_string(),
            length: 1,
            is_stream: false,
            position: 0,
            title: "t".to_string(),
            uri: None,
            artwork_url: None,
            isrc: None,
            source_name: None,
        },
        plugin_info: HashMap::new(),
        user_data: HashMap::new(),
    }
}

fn end_event(guild: &str, reason: TrackEndReason) -> Event {
    Event::TrackEnd(TrackEndEvent { guild_id: guild.to_string(), track: lavalink_track(), reason })
}

#[test]
fn events_decide_the_next_action() {
    let start = Event::TrackStart(TrackStartEvent { guild_id: "42".to_string(), track: lavalink_track() });
    assert_eq!(process_event(&start), EventAction::UpdateMessage(42));
    assert_eq!(process_event(&end_event("42", TrackEndReason::Finished)), EventAction::NextTrack(42));
    assert_eq!(process_event(&end_event("42", TrackEndReason::LoadFailed)), EventAction::NextTrack(42));
    assert_eq!(process_event(&end_event("42", TrackEndReason::Stopped)), EventAction::Ignore);
    assert_eq!(process_event(&end_event("42", TrackEndReason::Replaced)), EventAction::Ignore);
    assert_eq!(process_event(&end_event("42", TrackEndReason::Cleanup)), EventAction::Ignore);
    assert_eq!(process_event(&end_event("guild", TrackEndReason::Finished)), EventAction::Ignore);
    let closed = Event::WebSocketClosed(WebSocketClosedEvent {
        guild_id: "42".to_string(),
        code: 4006,
        reason: "gone".to_string(),
        by_remote: true,
    });
    assert_eq!(process_event(&closed), EventAction::Ignore);
}

#[test]
fn spammy_messages() {
    assert!(is_spammy(MessageKind::Stats));
    assert!(is_spammy(MessageKind::PlayerUpdate));
    assert!(!is_spammy(MessageKind::Event));
    assert!(!is_spammy(MessageKind::Ready));
}

fn node(host: &str, password: &str, tls: bool) -> NodeConfig {
    NodeConfig { host: host.to_string(), password: password.to_string(), tls }
}

#[test]
fn config_reads_nodes() {
    let parser = ConfigParser::new("Hydrogen/1.0");
    assert_eq!(parser.user_agent, "Hydrogen/1.0");
    assert_eq!(parser.parse("localhost:2333@youshallnotpass"), vec![node("localhost:2333", "youshallnotpass", false)]);
    assert_eq!(
        parser.parse("a.example:443@secret/tls;b:2333@pw"),
        vec![node("a.example:443", "secret", true), node("b:2333", "pw", false)]
    );
    assert_eq!(parser.parse("h:1@p/plain;"), vec![node("h:1", "p", false)]);
    assert_eq!(parser.parse("[::1]:2333@pass"), vec![node("[::1]:2333", "pass", false)]);
}

#[test]
fn config_skips_what_is_not_a_node() {
    let parser = ConfigParser::new("ua");
    assert_eq!(parser.parse(""), Vec::<NodeConfig>::new());
    assert_eq!(parser.parse("nothing here"), Vec::<NodeConfig>::new());
    assert_eq!(parser.parse("host:123456@p"), Vec::<NodeConfig>::new());
    assert_eq!(parser.parse("host:2333@"), Vec::<NodeConfig>::new());
    assert_eq!(parser.parse("junk;h:80@pw"), vec![node("h:80", "pw", false)]);
    assert_eq!(parser.parse("x:y:80@pw"), vec![node("y:80", "pw", false)]);
    assert_eq!(parser.parse("h:80@pw/;"), vec![node("h:80", "pw", false)]);
}

#[test]
fn readme_configuration_examples() {
    let parser = ConfigParser::new("ua");
    assert_eq!(parser.parse("localhost:2333@youshallnotpass"), vec![node("localhost:2333", "youshallnotpass", false)]);
    assert_eq!(
        parser.parse("localhost:2333@youshallnotpass;lavalink:443@securepassword/tls"),
        vec![node("localhost:2333", "youshallnotpass", false), node("lavalink:443", "securepassword", true)]
    );
}

#[test]
fn only_reachable_nodes_are_kept() {
    let nodes = vec![
        node("localhost:2333", "youshallnotpass", false),
        node("h:80", "bad\npassword", false),
        node("bad host:80", "pw", true),
        node("lavalink:443", "pw", true),
    ];
    assert_eq!(usable_nodes(nodes.clone()), vec![nodes[0].clone(), nodes[3].clone()]);
    assert_eq!(keep_usable(nodes.clone(), &vec![false, true, false, false]), vec![nodes[1].clone()]);
    assert_eq!(keep_usable(Vec::new(), &Vec::new()), Vec::<NodeConfig>::new());
}
