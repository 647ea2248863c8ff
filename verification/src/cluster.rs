//! The choice of Lavalink node in a cluster: which nodes hold a session, and a
//! round-robin pointer that spreads new players over the connected nodes.

use vstd::prelude::*;

verus! {

/// The scheduling state of a Lavalink cluster: one session slot per node and the
/// round-robin index. The nodes never change index, so a node is its position.
pub struct NodeRing {
    /// The session ID received from each node, if it sent one.
    sessions: Vec<Option<String>>,
    /// Index for the round-robin strategy.
    index: usize,
}

/// Whether `node` holds a session among `sessions`.
pub open spec fn node_connected(sessions: Seq<Option<String>>, node: int) -> bool {
    0 <= node < sessions.len() && sessions[node] is Some
}

/// The first offset `k` at or after `from` (below the ring's length) whose node,
/// counted round the ring from `start`, is connected.
pub open spec fn ring_search(sessions: Seq<Option<String>>, start: int, from: nat) -> Option<nat>
    decreases sessions.len() - from,
{
    if from >= sessions.len() {
        None
    } else if node_connected(sessions, (start + from) % (sessions.len() as int)) {
        Some(from)
    } else {
        ring_search(sessions, start, from + 1)
    }
}

impl NodeRing {
    #[verifier::type_invariant]
    spec fn well_formed(&self) -> bool {
        self.sessions@.len() > 0 ==> self.index < self.sessions@.len()
    }

    /// The session slot of each node.
    pub closed spec fn sessions(&self) -> Seq<Option<String>> {
        self.sessions@
    }

    /// The round-robin index: the node asked first by the next search.
    pub closed spec fn index_spec(&self) -> nat {
        self.index as nat
    }

    /// The number of nodes.
    pub open spec fn len_spec(&self) -> nat {
        self.sessions().len()
    }

    /// A ring of `node_count` nodes, none connected, pointing at the first node.
    pub fn new(node_count: usize) -> (r: Self)
        ensures
            r.len_spec() == node_count,
            forall|i: int| 0 <= i < node_count ==> r.sessions()[i] is None,
            r.index_spec() == 0,
    {
        let mut sessions: Vec<Option<String>> = Vec::new();
        let mut k: usize = 0;
        while k < node_count
            invariant
                k <= node_count,
                sessions@.len() == k,
                forall|i: int| 0 <= i < k ==> sessions@[i] is None,
            decreases node_count - k,
        {
            sessions.push(None);
            k = k + 1;
        }
        NodeRing { sessions, index: 0 }
    }

    /// The number of nodes in the ring.
    pub fn len(&self) -> (r: usize)
        ensures
            r == self.len_spec(),
    {
        self.sessions.len()
    }

    /// Records the session a node opened.
    pub fn insert_session(&mut self, node: usize, session_id: String)
        requires
            node < old(self).len_spec(),
        ensures
            final(self).sessions() == old(self).sessions().update(node as int, Some(session_id)),
            final(self).index_spec() == old(self).index_spec(),
    {
        proof {
            use_type_invariant(&*self);
        }
        let mut sessions: Vec<Option<String>> = Vec::new();
        std::mem::swap(&mut sessions, &mut self.sessions);
        sessions.set(node, Some(session_id));
        self.sessions = sessions;
    }

    /// The session of a node, if it has one.
    pub fn session_id(&self, node: usize) -> (r: Option<&String>)
        ensures
            r == (if node < self.len_spec() {
                match self.sessions()[node as int] {
                    Some(s) => Some(&s),
                    None => None,
                }
            } else {
                None
            }),
    {
        if node < self.sessions.len() {
            match &self.sessions[node] {
                Some(s) => Some(s),
                None => None,
            }
        } else {
            None
        }
    }

    /// Check if a node is connected.
    pub fn is_connected(&self, index: usize) -> (r: bool)
        ensures
            r == node_connected(self.sessions(), index as int),
    {
        index < self.sessions.len() && self.sessions[index].is_some()
    }

    /// Get the list of connected nodes, in increasing order.
    pub fn connected_nodes(&self) -> (r: Vec<usize>)
        ensures
            forall|i: int| 0 <= i < r@.len() ==> node_connected(self.sessions(), r@[i] as int),
            forall|n: int| node_connected(self.sessions(), n) ==> r@.contains(n as usize),
            forall|i: int, j: int| 0 <= i < j < r@.len() ==> r@[i] < r@[j],
    {
        let mut r: Vec<usize> = Vec::new();
        let mut k: usize = 0;
        while k < self.sessions.len()
            invariant
                k <= self.sessions().len(),
                forall|i: int| 0 <= i < r@.len() ==> node_connected(self.sessions(), r@[i] as int) && r@[i] < k,
                forall|n: int| 0 <= n < k && node_connected(self.sessions(), n) ==> r@.contains(n as usize),
                forall|i: int, j: int| 0 <= i < j < r@.len() ==> r@[i] < r@[j],
            decreases self.sessions().len() - k,
        {
            let ghost before = r@;
            if self.sessions[k].is_some() {
                r.push(k);
            }
            proof {
                assert forall|n: int| 0 <= n < k + 1 && node_connected(self.sessions(), n) implies r@.contains(n as usize) by {
                    if n < k {
                        let i = choose|i: int| 0 <= i < before.len() && before[i] == n as usize;
                        assert(r@[i] == n as usize);
                    } else {
                        assert(r@[r@.len() - 1] == k);
                    }
                }
            }
            k = k + 1;
        }
        r
    }

    /// Get the list of disconnected nodes, in increasing order.
    pub fn disconnected_nodes(&self) -> (r: Vec<usize>)
        ensures
            forall|i: int| 0 <= i < r@.len() ==> r@[i] < self.len_spec() && !node_connected(self.sessions(), r@[i] as int),
            forall|n: int| 0 <= n < self.len_spec() && !node_connected(self.sessions(), n) ==> r@.contains(n as usize),
            forall|i: int, j: int| 0 <= i < j < r@.len() ==> r@[i] < r@[j],
    {
        let connected = self.connected_nodes();
        let mut r: Vec<usize> = Vec::new();
        let mut k: usize = 0;
        while k < self.sessions.len()
            invariant
                k <= self.sessions().len(),
                forall|i: int| 0 <= i < connected@.len() ==> node_connected(self.sessions(), connected@[i] as int),
                forall|n: int| node_connected(self.sessions(), n) ==> connected@.contains(n as usize),
                forall|i: int| 0 <= i < r@.len() ==> r@[i] < k && !node_connected(self.sessions(), r@[i] as int),
                forall|n: int| 0 <= n < k && !node_connected(self.sessions(), n) ==> r@.contains(n as usize),
                forall|i: int, j: int| 0 <= i < j < r@.len() ==> r@[i] < r@[j],
            decreases self.sessions().len() - k,
        {
            let ghost before = r@;
            let listed = contains_index(&connected, k);
            if !listed {
                r.push(k);
            }
            proof {
                if listed {
                    let i = choose|i: int| 0 <= i < connected@.len() && connected@[i] == k;
                    assert(node_connected(self.sessions(), connected@[i] as int));
                }
                assert forall|n: int| 0 <= n < k + 1 && !node_connected(self.sessions(), n) implies r@.contains(n as usize) by {
                    if n < k {
                        let i = choose|i: int| 0 <= i < before.len() && before[i] == n as usize;
                        assert(r@[i] == n as usize);
                    } else {
                        assert(r@[r@.len() - 1] == k);
                    }
                }
            }
            k = k + 1;
        }
        r
    }

    /// Get the current index.
    pub fn current_index(&self) -> (r: usize)
        ensures
            r == self.index_spec(),
            self.len_spec() > 0 ==> r < self.len_spec(),
    {
        proof {
            use_type_invariant(self);
        }
        self.index
    }

    /// Get the current index and move the pointer to the following node.
    pub fn next_index(&mut self) -> (r: usize)
        requires
            old(self).len_spec() > 0,
        ensures
            r == old(self).index_spec(),
            final(self).index_spec() == (old(self).index_spec() + 1) as int % (old(self).len_spec() as int),
            final(self).sessions() == old(self).sessions(),
    {
        proof {
            use_type_invariant(&*self);
        }
        let n = self.sessions.len();
        let current = self.index;
        self.index = (current + 1) % n;
        current
    }

    /// Search for a connected node, returning its index if found or [None] if no node is connected.
    ///
    /// Nodes are asked in turn from the round-robin index; the index ends just after the node found.
    pub fn search_connected_node(&mut self) -> (r: Option<usize>)
        ensures
            final(self).sessions() == old(self).sessions(),
            ({
                let n = old(self).len_spec() as int;
                let start = old(self).index_spec() as int;
                match ring_search(old(self).sessions(), start, 0) {
                    Some(k) => r == Some(((start + k) % n) as usize)
                        && final(self).index_spec() == (start + k + 1) % n,
                    None => r is None && final(self).index_spec() == old(self).index_spec(),
                }
            }),
    {
        proof {
            use_type_invariant(&*self);
        }
        let n = self.sessions.len();
        let ghost start = self.index as int;
        let ghost sessions = self.sessions@;
        let mut tried: usize = 0;
        proof {
            if n > 0 {
                assert(start % (n as int) == start) by (nonlinear_arith)
                    requires n > 0, 0 <= start < n;
            }
        }
        while tried < n
            invariant
                n == sessions.len(),
                sessions == old(self).sessions@,
                start == old(self).index as int,
                self.sessions@ == sessions,
                0 <= start,
                n > 0 ==> start < n,
                tried <= n,
                ring_search(sessions, start, 0) == ring_search(sessions, start, tried as nat),
                n > 0 ==> self.index == (start + tried) % (n as int),
                n == 0 ==> self.index == start,
            decreases n - tried,
        {
            proof {
                use_type_invariant(&*self);
            }
            let index = self.next_index();
            proof {
                assert((start + tried + 1) % (n as int) == ((start + tried) % (n as int) + 1) % (n as int)) by (nonlinear_arith)
                    requires n > 0, start >= 0, tried >= 0;
            }
            if self.is_connected(index) {
                return Some(index);
            }
            tried = tried + 1;
        }
        proof {
            if n > 0 {
                assert((start + n) % (n as int) == start) by (nonlinear_arith)
                    requires n > 0, 0 <= start < n;
            }
        }
        None
    }
}

/// Whether `values` holds `value`.
fn contains_index(values: &Vec<usize>, value: usize) -> (r: bool)
    ensures
        r == values@.contains(value),
{
    let mut k: usize = 0;
    while k < values.len()
        invariant
            k <= values@.len(),
            forall|i: int| 0 <= i < k ==> values@[i] != value,
        decreases values@.len() - k,
    {
        if values[k] == value {
            return true;
        }
        k = k + 1;
    }
    false
}

/// A search round the ring finds a node exactly when some node is connected, and
/// the node it finds is connected: a new player is never put on a node without a session.
pub proof fn lemma_search_finds_connected(sessions: Seq<Option<String>>, start: int)
    requires
        0 <= start,
        sessions.len() > 0 ==> start < sessions.len(),
    ensures
        ring_search(sessions, start, 0) matches Some(k) ==> k < sessions.len()
            && node_connected(sessions, (start + k) % (sessions.len() as int)),
        ring_search(sessions, start, 0) is None <==> (forall|n: int| !node_connected(sessions, n)),
{
    lemma_search_from(sessions, start, 0);
    if ring_search(sessions, start, 0) is None {
        assert forall|n: int| !node_connected(sessions, n) by {
            if node_connected(sessions, n) {
                let len = sessions.len() as int;
                let k = if n >= start { n - start } else { n + len - start };
                assert(0 <= k < len);
                assert((start + k) % len == n) by (nonlinear_arith)
                    requires
                        0 <= start < len,
                        0 <= n < len,
                        k == (if n >= start { n - start } else { n + len - start });
                assert(!node_connected(sessions, (start + k) % len));
            }
        }
    }
}

/// What a search from offset `from` answers: the first connected offset at or after it.
proof fn lemma_search_from(sessions: Seq<Option<String>>, start: int, from: nat)
    ensures
        ring_search(sessions, start, from) matches Some(k) ==> from <= k < sessions.len()
            && node_connected(sessions, (start + k) % (sessions.len() as int)),
        ring_search(sessions, start, from) is None ==> forall|k: int| from <= k < sessions.len()
            ==> !#[trigger] node_connected(sessions, (start + k) % (sessions.len() as int)),
    decreases sessions.len() - from,
{
    if from < sessions.len() {
        lemma_search_from(sessions, start, from + 1);
    }
}

} // verus!
