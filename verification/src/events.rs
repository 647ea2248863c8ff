//! What the player manager does with what a Lavalink node sends: which events
//! move a player on, which messages are logged quietly, and where the players of
//! a node that went away are moved.

use crate::cluster::{lemma_search_finds_connected, node_connected, ring_search, NodeRing};
use crate::model::{Event, MessageKind, TrackEndReason};
use crate::text::{decimal, digit_char};
use crate::time_parsers::{all_digits, digits_value, is_digit};
use vstd::prelude::*;

verus! {

/// The number a text stands for when read as an unsigned 64-bit integer: an
/// optional `+`, then one or more decimal digits, whose value fits in 64 bits.
pub open spec fn u64_text_value(s: Seq<char>) -> Option<u64> {
    let digits = if s.len() > 0 && s[0] == '+' { s.skip(1) } else { s };
    if digits.len() > 0 && all_digits(digits) && digits_value(digits) <= u64::MAX {
        Some(digits_value(digits) as u64)
    } else {
        None
    }
}

/// A number grows, or stays, when digits are added to its end.
proof fn lemma_digits_value_grows(s: Seq<char>, k: int)
    requires
        0 <= k <= s.len(),
    ensures
        digits_value(s.take(k)) <= digits_value(s),
    decreases s.len() - k,
{
    if k < s.len() {
        lemma_digits_value_grows(s, k + 1);
        assert(s.take(k + 1).drop_last() =~= s.take(k));
    } else {
        assert(s.take(k) =~= s);
    }
}

/// Parses a guild id as the unsigned 64-bit integer it stands for.
pub fn parse_id(text: &str) -> (r: Option<u64>)
    ensures
        r == u64_text_value(text@),
{
    let n = text.unicode_len();
    let start: usize = if n > 0 && text.get_char(0) == '+' { 1 } else { 0 };
    let ghost digits = if text@.len() > 0 && text@[0] == '+' { text@.skip(1) } else { text@ };
    proof {
        if start == 1 {
            assert(digits =~= text@.subrange(1, n as int));
        } else {
            assert(digits =~= text@.subrange(0, n as int));
        }
    }
    if start == n {
        return None;
    }
    let mut value: u64 = 0;
    let mut k: usize = start;
    while k < n
        invariant
            start <= k <= n == text@.len(),
            digits == text@.subrange(start as int, n as int),
            digits == (if text@.len() > 0 && text@[0] == '+' { text@.skip(1) } else { text@ }),
            all_digits(digits.take(k - start)),
            value == digits_value(digits.take(k - start)),
        decreases n - k,
    {
        let c = text.get_char(k);
        let ghost prefix = digits.take(k - start);
        let ghost next = digits.take(k - start + 1);
        assert(next.drop_last() =~= prefix);
        assert(digits[k - start] == c);
        assert(next.last() == c);
        if !('0' <= c && c <= '9') {
            assert(!is_digit(digits[k - start]));
            return None;
        }
        let d = (c as u64) - ('0' as u64);
        proof {
            assert(all_digits(next)) by {
                assert forall|i: int| 0 <= i < next.len() implies is_digit(#[trigger] next[i]) by {
                    if i < prefix.len() {
                        assert(next[i] == prefix[i]);
                    }
                }
            }
        }
        if value > (u64::MAX - d) / 10 {
            proof {
                assert(value * 10 + d > u64::MAX) by (nonlinear_arith)
                    requires value > (u64::MAX - d) / 10, d <= 9;
                lemma_digits_value_grows(digits, k - start + 1);
            }
            return None;
        }
        assert(value * 10 + d <= u64::MAX) by (nonlinear_arith)
            requires value <= (u64::MAX - d) / 10, d <= 9;
        value = value * 10 + d;
        k = k + 1;
    }
    assert(digits.take(k - start) =~= digits);
    Some(value)
}

/// What the player manager does after an event from Lavalink.
#[derive(Debug, Clone, Copy, PartialEq, Eq, Structural)]
pub enum EventAction {
    /// Update the player message of the guild.
    UpdateMessage(u64),
    /// Move the player of the guild to its next track.
    NextTrack(u64),
    /// Nothing to do.
    Ignore,
}

/// What follows an event: a track that starts updates the player message; a track
/// that ends moves the player on when the reason allows the next track. Events whose
/// guild id is not a number are ignored, and so are the other events.
pub open spec fn event_plan(event: Event) -> EventAction {
    match event {
        Event::TrackStart(e) => match u64_text_value(e.guild_id@) {
            Some(guild) => EventAction::UpdateMessage(guild),
            None => EventAction::Ignore,
        },
        Event::TrackEnd(e) => if e.reason == TrackEndReason::Finished || e.reason == TrackEndReason::LoadFailed {
            match u64_text_value(e.guild_id@) {
                Some(guild) => EventAction::NextTrack(guild),
                None => EventAction::Ignore,
            }
        } else {
            EventAction::Ignore
        },
        _ => EventAction::Ignore,
    }
}

/// Process the Lavalink event: decides what the player manager does with it.
pub fn process_event(event: &Event) -> (r: EventAction)
    ensures
        r == event_plan(*event),
{
    match event {
        Event::TrackStart(track) => match parse_id(track.guild_id.as_str()) {
            Some(guild) => EventAction::UpdateMessage(guild),
            None => EventAction::Ignore,
        },
        Event::TrackEnd(track) => {
            if track.reason.may_start_next() {
                match parse_id(track.guild_id.as_str()) {
                    Some(guild) => EventAction::NextTrack(guild),
                    None => EventAction::Ignore,
                }
            } else {
                EventAction::Ignore
            }
        },
        _ => EventAction::Ignore,
    }
}

/// Whether a message of this kind comes so often that handling it is logged quietly.
pub fn is_spammy(kind: MessageKind) -> (r: bool)
    ensures
        r == (kind == MessageKind::Stats || kind == MessageKind::PlayerUpdate),
{
    kind == MessageKind::Stats || kind == MessageKind::PlayerUpdate
}

/// Where the players of a node that went away go, taking the players from `from` on
/// in turn: each player of the `lost` node is moved to the next connected node of the
/// ring (`Some(node)`), the others stay (`None`). When no node is connected the
/// search stops at the first player of the lost node, nothing more moves, and the
/// players still on the lost node are to be removed. Also gives the ring's final index.
pub open spec fn migration_from(
    sessions: Seq<Option<String>>,
    index: nat,
    lost: usize,
    nodes: Seq<usize>,
    from: nat,
) -> (Seq<Option<usize>>, bool, nat)
    decreases nodes.len() - from,
{
    if from >= nodes.len() {
        (Seq::empty(), false, index)
    } else if nodes[from as int] != lost {
        let rest = migration_from(sessions, index, lost, nodes, from + 1);
        (seq![None] + rest.0, rest.1, rest.2)
    } else {
        match ring_search(sessions, index as int, 0) {
            Some(k) => {
                let n = sessions.len() as int;
                let rest = migration_from(sessions, ((index + k + 1) as int % n) as nat, lost, nodes, from + 1);
                (seq![Some(((index + k) as int % n) as usize)] + rest.0, rest.1, rest.2)
            },
            None => (Seq::new((nodes.len() - from) as nat, |i: int| None), true, index),
        }
    }
}

/// The moves decided for the players of a node that went away.
pub struct Migration {
    /// For each player, in the order given, the node it moves to, if it moves.
    pub moves: Vec<Option<usize>>,
    /// Whether the players still on the lost node are to be removed.
    pub remove_lost: bool,
}

/// Decides where the players go when the node `lost` went away; `nodes` holds the
/// node of each player, in the order the players are visited. Every player of the
/// lost node takes the next connected node of the ring, which moves on each time.
pub fn migrate_players(ring: &mut NodeRing, lost: usize, nodes: &Vec<usize>) -> (r: Migration)
    ensures
        final(ring).sessions() == old(ring).sessions(),
        ({
            let plan = migration_from(old(ring).sessions(), old(ring).index_spec(), lost, nodes@, 0);
            &&& r.moves@ == plan.0
            &&& r.remove_lost == plan.1
            &&& final(ring).index_spec() == plan.2
        }),
{
    let ghost sessions = ring.sessions();
    let ghost plan = migration_from(sessions, ring.index_spec(), lost, nodes@, 0);
    let mut moves: Vec<Option<usize>> = Vec::new();
    let mut k: usize = 0;
    while k < nodes.len()
        invariant
            k <= nodes@.len(),
            moves@.len() == k,
            sessions == old(ring).sessions(),
            ring.sessions() == sessions,
            plan == migration_from(sessions, old(ring).index_spec(), lost, nodes@, 0),
            moves@ + migration_from(sessions, ring.index_spec(), lost, nodes@, k as nat).0 == plan.0,
            migration_from(sessions, ring.index_spec(), lost, nodes@, k as nat).1 == plan.1,
            migration_from(sessions, ring.index_spec(), lost, nodes@, k as nat).2 == plan.2,
        decreases nodes@.len() - k,
    {
        let ghost before = migration_from(sessions, ring.index_spec(), lost, nodes@, k as nat);
        proof {
            lemma_migration_keeps_others(sessions, ring.index_spec(), lost, nodes@, k as nat);
            assert forall|i: int| 0 <= i < k implies moves@[i] == plan.0[i] by {
                assert(plan.0[i] == (moves@ + before.0)[i]);
            }
        }
        if nodes[k] != lost {
            moves.push(None);
            proof {
                assert(moves@ + migration_from(sessions, ring.index_spec(), lost, nodes@, (k + 1) as nat).0
                    =~= plan.0);
            }
        } else {
            match ring.search_connected_node() {
                Some(node) => {
                    moves.push(Some(node));
                    proof {
                        assert(moves@ + migration_from(sessions, ring.index_spec(), lost, nodes@, (k + 1) as nat).0
                            =~= plan.0);
                    }
                },
                None => {
                    proof {
                        lemma_migration_keeps_others(sessions, ring.index_spec(), lost, nodes@, k as nat);
                        assert(before.1 && before.2 == ring.index_spec());
                        assert forall|i: int| k <= i < nodes@.len() implies plan.0[i] is None by {
                            assert(plan.0[i] == before.0[i - k]);
                        }
                    }
                    let mut j: usize = k;
                    while j < nodes.len()
                        invariant
                            k <= j <= nodes@.len(),
                            moves@.len() == j,
                            sessions == old(ring).sessions(),
                            plan == migration_from(sessions, old(ring).index_spec(), lost, nodes@, 0),
                            ring.sessions() == sessions,
                            ring.index_spec() == plan.2,
                            plan.1,
                            plan.0.len() == nodes@.len(),
                            forall|i: int| 0 <= i < k ==> moves@[i] == plan.0[i],
                            forall|i: int| k <= i < nodes@.len() ==> plan.0[i] is None,
                            forall|i: int| k <= i < j ==> moves@[i] is None,
                        decreases nodes@.len() - j,
                    {
                        moves.push(None);
                        j = j + 1;
                    }
                    proof {
                        assert(moves@ =~= plan.0);
                    }
                    return Migration { moves, remove_lost: true };
                },
            }
        }
        k = k + 1;
    }
    proof {
        assert(moves@ =~= plan.0);
    }
    Migration { moves, remove_lost: false }
}

/// The players of a lost node only move to nodes that hold a session, and they are
/// removed only when no node holds one: a player is never put on a node known to be down.
pub proof fn lemma_migration_targets_connected(
    sessions: Seq<Option<String>>,
    index: nat,
    lost: usize,
    nodes: Seq<usize>,
    from: nat,
)
    requires
        sessions.len() > 0 ==> index < sessions.len(),
        sessions.len() <= usize::MAX,
    ensures
        ({
            let plan = migration_from(sessions, index, lost, nodes, from);
            &&& forall|i: int| 0 <= i < plan.0.len() && plan.0[i] is Some
                ==> node_connected(sessions, plan.0[i]->0 as int)
            &&& plan.1 ==> forall|n: int| !node_connected(sessions, n)
        }),
    decreases nodes.len() - from,
{
    if from < nodes.len() {
        lemma_search_finds_connected(sessions, index as int);
        if nodes[from as int] != lost {
            lemma_migration_targets_connected(sessions, index, lost, nodes, from + 1);
            let rest = migration_from(sessions, index, lost, nodes, from + 1);
            assert forall|i: int| 0 < i < 1 + rest.0.len() implies (seq![None::<usize>] + rest.0)[i] == rest.0[i - 1] by {}
        } else {
            match ring_search(sessions, index as int, 0) {
                Some(k) => {
                    let n = sessions.len() as int;
                    let next = ((index + k + 1) as int % n) as nat;
                    lemma_migration_targets_connected(sessions, next, lost, nodes, from + 1);
                    let rest = migration_from(sessions, next, lost, nodes, from + 1);
                    let head: Option<usize> = Some(((index + k) as int % n) as usize);
                    assert forall|i: int| 0 < i < 1 + rest.0.len() implies (seq![head] + rest.0)[i] == rest.0[i - 1] by {}
                },
                None => {},
            }
        }
    }
}

/// Players of the other nodes never move: only players of the lost node are given a node.
pub proof fn lemma_migration_keeps_others(
    sessions: Seq<Option<String>>,
    index: nat,
    lost: usize,
    nodes: Seq<usize>,
    from: nat,
)
    ensures
        ({
            let plan = migration_from(sessions, index, lost, nodes, from);
            &&& plan.0.len() == if from <= nodes.len() { nodes.len() - from } else { 0 }
            &&& forall|i: int| 0 <= i < plan.0.len() && nodes[from + i] != lost ==> plan.0[i] is None
        }),
    decreases nodes.len() - from,
{
    if from < nodes.len() {
        match ring_search(sessions, index as int, 0) {
            Some(k) => {
                let n = sessions.len() as int;
                lemma_migration_keeps_others(sessions, index, lost, nodes, from + 1);
                lemma_migration_keeps_others(sessions, ((index + k + 1) as int % n) as nat, lost, nodes, from + 1);
            },
            None => {
                lemma_migration_keeps_others(sessions, index, lost, nodes, from + 1);
            },
        }
    }
}

/// The decimal text of a number is all digits and stands for that number.
proof fn lemma_decimal_digits(n: nat)
    ensures
        decimal(n).len() > 0,
        all_digits(decimal(n)),
        digits_value(decimal(n)) == n,
    decreases n,
{
    let digits = seq!['0', '1', '2', '3', '4', '5', '6', '7', '8', '9'];
    assert forall|d: nat| d < 10 implies is_digit(#[trigger] digit_char(d))
        && (digit_char(d) as u32) - ('0' as u32) == d by {
        assert(digit_char(d) == digits[d as int]);
    }
    if n < 10 {
        assert(decimal(n) =~= seq![digit_char(n)]);
        assert(decimal(n).drop_last() =~= Seq::<char>::empty());
        assert(digits_value(Seq::<char>::empty()) == 0);
        assert(decimal(n).last() == digit_char(n));
        assert((digit_char(n) as u32) - ('0' as u32) == n);
        assert(digits_value(decimal(n)) == digits_value(decimal(n).drop_last()) * 10 + ((decimal(n).last() as u32) - ('0' as u32)) as nat);
    } else {
        lemma_decimal_digits(n / 10);
        let head = decimal(n / 10);
        assert(decimal(n) == head + seq![digit_char(n % 10)]);
        assert(decimal(n).drop_last() =~= head);
        assert(all_digits(decimal(n))) by {
            assert forall|i: int| 0 <= i < decimal(n).len() implies is_digit(#[trigger] decimal(n)[i]) by {
                if i < head.len() {
                    assert(decimal(n)[i] == head[i]);
                }
            }
        }
        assert(decimal(n).last() == digit_char(n % 10));
        assert((digit_char(n % 10) as u32) - ('0' as u32) == n % 10);
        assert(digits_value(decimal(n)) == digits_value(head) * 10 + ((decimal(n).last() as u32) - ('0' as u32)) as nat);
        assert(n == (n / 10) * 10 + n % 10) by (nonlinear_arith);
    }
}

/// Reading back the decimal text of a guild id gives the id: an id written out in
/// decimal is always read as itself.
pub proof fn lemma_id_text_round_trip(id: u64)
    ensures
        u64_text_value(decimal(id as nat)) == Some(id),
{
    lemma_decimal_digits(id as nat);
    let s = decimal(id as nat);
    assert(s[0] != '+') by {
        assert(is_digit(s[0]));
    }
}

} // verus!
