//! The Lavalink nodes named in the configuration text.
//!
//! Each node is written `host:port@password`, optionally followed by `/query`, and
//! the nodes are separated by `;`. The host may be an IPv6 address in brackets. The
//! text is scanned from left to right; whatever does not form a node is skipped, and
//! a node is read as the first complete reading from its first character: a
//! bracketed host is closed at its last possible `]`, every other part is as long as
//! its characters allow.

use vstd::prelude::*;

verus! {

/// The kinds of characters that the parts of a node are made of.
#[derive(Debug, Clone, Copy, PartialEq, Eq, Structural)]
pub enum CharClass {
    /// A host outside brackets: anything but `;`, `:` and a line break.
    Host,
    /// A password: anything but `/`, `;` and a line break.
    Password,
    /// A query: anything but `;` and a line break.
    Query,
    /// A port: an ASCII decimal digit.
    Digit,
    /// Inside brackets: anything but a line break.
    Line,
}

/// Whether `c` belongs to `class`.
pub open spec fn in_class(c: char, class: CharClass) -> bool {
    match class {
        CharClass::Host => c != ';' && c != ':' && c != '\n',
        CharClass::Password => c != '/' && c != ';' && c != '\n',
        CharClass::Query => c != ';' && c != '\n',
        CharClass::Digit => '0' <= c && c <= '9',
        CharClass::Line => c != '\n',
    }
}

/// Whether `c` belongs to `class`.
fn class_has(c: char, class: CharClass) -> (r: bool)
    ensures
        r == in_class(c, class),
{
    match class {
        CharClass::Host => c != ';' && c != ':' && c != '\n',
        CharClass::Password => c != '/' && c != ';' && c != '\n',
        CharClass::Query => c != ';' && c != '\n',
        CharClass::Digit => '0' <= c && c <= '9',
        CharClass::Line => c != '\n',
    }
}

/// Where the longest run of `class` characters of `s` from `i` ends.
pub open spec fn run_end(s: Seq<char>, i: nat, class: CharClass) -> nat
    decreases s.len() - i,
{
    if i >= s.len() {
        i
    } else if in_class(s[i as int], class) {
        run_end(s, i + 1, class)
    } else {
        i
    }
}

/// A run ends at or after its start, and within the text when it starts there.
proof fn lemma_run_end_bounds(s: Seq<char>, i: nat, class: CharClass)
    ensures
        i <= run_end(s, i, class),
        i <= s.len() ==> run_end(s, i, class) <= s.len(),
        forall|k: int| i <= k < run_end(s, i, class) ==> in_class(s[k], class),
        run_end(s, i, class) < s.len() ==> !in_class(s[run_end(s, i, class) as int], class),
    decreases s.len() - i,
{
    if i < s.len() && in_class(s[i as int], class) {
        lemma_run_end_bounds(s, i + 1, class);
    }
}

/// Finds where the longest run of `class` characters from `i` ends.
fn find_run_end(s: &str, n: usize, i: usize, class: CharClass) -> (r: usize)
    requires
        n == s@.len(),
        i <= n,
    ensures
        r == run_end(s@, i as nat, class),
        i <= r <= n,
{
    let mut k: usize = i;
    while k < n && class_has(s.get_char(k), class)
        invariant
            i <= k <= n,
            n == s@.len(),
            run_end(s@, i as nat, class) == run_end(s@, k as nat, class),
        decreases n - k,
    {
        k = k + 1;
    }
    proof {
        lemma_run_end_bounds(s@, i as nat, class);
    }
    k
}

/// Where the parts of a node lie in the text, as spans from a start up to an end.
pub struct NodeSpan {
    /// The host with its port, `host:port`.
    pub host: (nat, nat),
    /// The password.
    pub password: (nat, nat),
    /// The query after `/`, if there is one.
    pub query: Option<(nat, nat)>,
    /// Where the node ends, after its `;` if it has one.
    pub end: nat,
}

/// What follows the `:` of a node whose port starts at `p`: one to five digits, `@`,
/// the password, then a `/` and a query if they are there, and a `;` if it is there.
/// Gives where the port ends and the spans of password and query, and the node's end.
pub open spec fn tail_at(s: Seq<char>, p: nat) -> Option<(nat, (nat, nat), Option<(nat, nat)>, nat)> {
    let d = run_end(s, p, CharClass::Digit);
    if d == p || d > p + 5 || d >= s.len() || s[d as int] != '@' {
        None
    } else {
        let e = run_end(s, d + 1, CharClass::Password);
        if e == d + 1 {
            None
        } else {
            let q = run_end(s, e + 1, CharClass::Query);
            let query = if e < s.len() && s[e as int] == '/' && q > e + 1 { Some((e + 1, q)) } else { None };
            let after = match query {
                Some(span) => span.1,
                None => e,
            };
            let end = if after < s.len() && s[after as int] == ';' { after + 1 } else { after };
            Some((d, (d + 1, e), query, end))
        }
    }
}

/// The exec form of what follows the `:` of a node.
struct Tail {
    port_end: usize,
    password: (usize, usize),
    query: Option<(usize, usize)>,
    end: usize,
}

/// The spans that a tail stands for.
spec fn tail_view(t: Tail) -> (nat, (nat, nat), Option<(nat, nat)>, nat) {
    (
        t.port_end as nat,
        (t.password.0 as nat, t.password.1 as nat),
        match t.query {
            Some(q) => Some((q.0 as nat, q.1 as nat)),
            None => None,
        },
        t.end as nat,
    )
}

/// Reads what follows the `:` of a node whose port starts at `p`.
fn read_tail(s: &str, n: usize, p: usize) -> (r: Option<Tail>)
    requires
        n == s@.len(),
        p <= n,
    ensures
        match tail_at(s@, p as nat) {
            Some(t) => r matches Some(x) && tail_view(x) == t && x.end <= n,
            None => r is None,
        },
{
    let d = find_run_end(s, n, p, CharClass::Digit);
    if d == p || d - p > 5 || d >= n {
        return None;
    }
    if s.get_char(d) != '@' {
        return None;
    }
    let e = find_run_end(s, n, d + 1, CharClass::Password);
    if e == d + 1 {
        return None;
    }
    let query = if e < n && s.get_char(e) == '/' {
        let q = find_run_end(s, n, e + 1, CharClass::Query);
        if q > e + 1 {
            Some((e + 1, q))
        } else {
            None
        }
    } else {
        None
    };
    proof {
        if !(e < n && s@[e as int] == '/') && e < n {
            lemma_run_end_bounds(s@, (e + 1) as nat, CharClass::Query);
        }
    }
    let after = match query {
        Some(span) => span.1,
        None => e,
    };
    let end = if after < n && s.get_char(after) == ';' {
        after + 1
    } else {
        after
    };
    Some(Tail { port_end: d, password: (d + 1, e), query, end })
}

/// The `]` that closes a bracketed host opened at `i`, looking from `j` down: the
/// last one after at least one character, directly followed by `:` and a tail.
pub open spec fn bracket_close(s: Seq<char>, i: nat, j: nat) -> Option<nat>
    decreases j,
{
    if j < i + 2 {
        None
    } else if j + 1 < s.len() && s[j as int] == ']' && s[j + 1 as int] == ':' && tail_at(s, j + 2) is Some {
        Some(j)
    } else {
        bracket_close(s, i, (j - 1) as nat)
    }
}

/// The spans of a node whose host runs from `start` and whose port starts at `p`.
pub open spec fn node_span(start: nat, t: (nat, (nat, nat), Option<(nat, nat)>, nat)) -> NodeSpan {
    NodeSpan { host: (start, t.0), password: t.1, query: t.2, end: t.3 }
}

/// The node read from position `i`, if one starts there: a host in brackets when the
/// text has one there, else a host up to the first `;`, `:` or line break.
pub open spec fn node_at(s: Seq<char>, i: nat) -> Option<NodeSpan> {
    let last = (run_end(s, i + 1, CharClass::Line) - 1) as nat;
    if i < s.len() && s[i as int] == '[' && bracket_close(s, i, last) is Some {
        let j = bracket_close(s, i, last)->0;
        Some(node_span(i, tail_at(s, j + 2)->0))
    } else {
        let h = run_end(s, i, CharClass::Host);
        if h > i && h < s.len() && s[h as int] == ':' && tail_at(s, h + 1) is Some {
            Some(node_span(i, tail_at(s, h + 1)->0))
        } else {
            None
        }
    }
}

/// The exec form of the spans of a node.
struct FoundNode {
    host: (usize, usize),
    password: (usize, usize),
    query: Option<(usize, usize)>,
    end: usize,
}

/// The spans that a found node stands for.
spec fn found_view(f: FoundNode) -> NodeSpan {
    NodeSpan {
        host: (f.host.0 as nat, f.host.1 as nat),
        password: (f.password.0 as nat, f.password.1 as nat),
        query: match f.query {
            Some(q) => Some((q.0 as nat, q.1 as nat)),
            None => None,
        },
        end: f.end as nat,
    }
}

/// The spans of a node read from `i` up to the tail found after its host.
fn found_node(i: usize, t: Tail) -> (r: FoundNode)
    ensures
        found_view(r) == node_span(i as nat, tail_view(t)),
        r.end == t.end,
{
    FoundNode { host: (i, t.port_end), password: t.password, query: t.query, end: t.end }
}

/// Looks for the `]` that closes a bracketed host opened at `i`, from `j` down.
fn find_bracket_close(s: &str, n: usize, i: usize, j: usize) -> (r: Option<(usize, Tail)>)
    requires
        n == s@.len(),
        i <= j < n,
    ensures
        match bracket_close(s@, i as nat, j as nat) {
            Some(k) => r matches Some((x, t)) && x == k && tail_at(s@, k + 2) == Some(tail_view(t)) && t.end <= n,
            None => r is None,
        },
{
    let mut k: usize = j;
    loop
        invariant
            n == s@.len(),
            i <= k <= j < n,
            bracket_close(s@, i as nat, j as nat) == bracket_close(s@, i as nat, k as nat),
        decreases k,
    {
        if k <= i || k - i < 2 {
            return None;
        }
        if k + 1 < n && s.get_char(k) == ']' && s.get_char(k + 1) == ':' {
            match read_tail(s, n, k + 2) {
                Some(t) => {
                    return Some((k, t));
                },
                None => {},
            }
        }
        k = k - 1;
    }
}

/// Reads the node that starts at `i`, if one does.
fn read_node_at(s: &str, n: usize, i: usize) -> (r: Option<FoundNode>)
    requires
        n == s@.len(),
        i < n,
    ensures
        match node_at(s@, i as nat) {
            Some(span) => r matches Some(f) && found_view(f) == span && f.end <= n,
            None => r is None,
        },
{
    let line = find_run_end(s, n, i + 1, CharClass::Line);
    if s.get_char(i) == '[' {
        match find_bracket_close(s, n, i, line - 1) {
            Some((_, t)) => {
                return Some(found_node(i, t));
            },
            None => {},
        }
    }
    let h = find_run_end(s, n, i, CharClass::Host);
    if h > i && h < n && s.get_char(h) == ':' {
        match read_tail(s, n, h + 1) {
            Some(t) => Some(found_node(i, t)),
            None => None,
        }
    } else {
        None
    }
}

/// A node ends after its first character, and its spans lie in order within the text.
proof fn lemma_node_ends_after_start(s: Seq<char>, i: nat)
    ensures
        node_at(s, i) matches Some(span) ==> span.end > i && span_ok(span, s.len()),
{
    let last = (run_end(s, i + 1, CharClass::Line) - 1) as nat;
    if i < s.len() && s[i as int] == '[' && bracket_close(s, i, last) is Some {
        let j = bracket_close(s, i, last)->0;
        lemma_bracket_close_after(s, i, last);
        lemma_tail_ends_after(s, j + 2);
    } else {
        let h = run_end(s, i, CharClass::Host);
        lemma_run_end_bounds(s, i, CharClass::Host);
        if h < s.len() {
            lemma_tail_ends_after(s, h + 1);
        }
    }
}

/// A closing bracket lies after the opening one.
proof fn lemma_bracket_close_after(s: Seq<char>, i: nat, j: nat)
    ensures
        bracket_close(s, i, j) matches Some(k) ==> k >= i + 2 && k + 2 <= s.len() && tail_at(s, k + 2) is Some,
    decreases j,
{
    if j >= i + 2 {
        lemma_bracket_close_after(s, i, (j - 1) as nat);
    }
}

/// Whether the spans of a node lie in order within a text of length `len`.
pub open spec fn span_ok(span: NodeSpan, len: nat) -> bool {
    &&& span.host.0 <= span.host.1 <= span.password.0 <= span.password.1 <= len
    &&& span.end <= len
    &&& (span.query matches Some(q) ==> q.0 <= q.1 <= len)
}

/// A tail ends after its port starts, and its spans lie in order within the text.
proof fn lemma_tail_ends_after(s: Seq<char>, p: nat)
    requires
        p <= s.len(),
    ensures
        tail_at(s, p) matches Some(t) ==> t.3 > p && p <= t.0 <= t.1.0 <= t.1.1 <= s.len()
            && t.3 <= s.len() && (t.2 matches Some(q) ==> q.0 <= q.1 <= s.len()),
{
    let d = run_end(s, p, CharClass::Digit);
    lemma_run_end_bounds(s, p, CharClass::Digit);
    lemma_run_end_bounds(s, d + 1, CharClass::Password);
    let e = run_end(s, d + 1, CharClass::Password);
    lemma_run_end_bounds(s, e + 1, CharClass::Query);
}

/// The first node that starts at or after `from`.
pub open spec fn first_node(s: Seq<char>, from: nat) -> Option<NodeSpan>
    decreases s.len() - from,
{
    if from >= s.len() {
        None
    } else if node_at(s, from) is Some {
        node_at(s, from)
    } else {
        first_node(s, from + 1)
    }
}

/// A node found from `from` ends after `from`, and its spans lie within the text.
proof fn lemma_first_node_ends_after(s: Seq<char>, from: nat)
    ensures
        first_node(s, from) matches Some(span) ==> span.end > from && span_ok(span, s.len()),
    decreases s.len() - from,
{
    if from < s.len() {
        lemma_node_ends_after_start(s, from);
        if node_at(s, from) is None {
            lemma_first_node_ends_after(s, from + 1);
        }
    }
}

/// The nodes of the text from `from` on, in order: each is the first node after the
/// previous one ends.
pub open spec fn nodes_from(s: Seq<char>, from: nat) -> Seq<NodeSpan>
    decreases s.len() + 1 - from,
{
    match first_node(s, from) {
        Some(span) => if from < span.end <= s.len() {
            seq![span] + nodes_from(s, span.end)
        } else {
            seq![span]
        },
        None => Seq::empty(),
    }
}

/// The first node found from `from` starts at or after `from`.
proof fn lemma_first_node_starts_after(s: Seq<char>, from: nat)
    ensures
        first_node(s, from) matches Some(span) ==> span.host.0 >= from,
    decreases s.len() - from,
{
    if from < s.len() && node_at(s, from) is None {
        lemma_first_node_starts_after(s, from + 1);
    }
}

/// The nodes of a configuration come in the order of the text and do not overlap:
/// each node lies within the text, and the next one starts after it ends.
pub proof fn lemma_nodes_in_order(s: Seq<char>, from: nat)
    ensures
        forall|k: int| 0 <= k < nodes_from(s, from).len() ==> span_ok(#[trigger] nodes_from(s, from)[k], s.len())
            && nodes_from(s, from)[k].host.0 >= from,
        forall|k: int| 0 <= k < nodes_from(s, from).len() - 1
            ==> #[trigger] nodes_from(s, from)[k].end <= nodes_from(s, from)[k + 1].host.0,
    decreases s.len() + 1 - from,
{
    lemma_first_node_ends_after(s, from);
    lemma_first_node_starts_after(s, from);
    match first_node(s, from) {
        Some(span) => {
            if from < span.end <= s.len() {
                lemma_nodes_in_order(s, span.end);
                let rest = nodes_from(s, span.end);
                let all = nodes_from(s, from);
                assert(all == seq![span] + rest);
                assert forall|k: int| 0 < k < all.len() implies all[k] == rest[k - 1] by {}
                assert forall|k: int| 0 <= k < all.len() implies span_ok(#[trigger] all[k], s.len())
                    && all[k].host.0 >= from by {
                    if k > 0 {
                        assert(all[k] == rest[k - 1]);
                    }
                }
                assert forall|k: int| 0 <= k < all.len() - 1 implies #[trigger] all[k].end <= all[k + 1].host.0 by {
                    assert(all[k + 1] == rest[k]);
                    if k > 0 {
                        assert(all[k] == rest[k - 1]);
                    }
                }
            }
        },
        None => {},
    }
}

/// Finds the first node that starts at or after `from`.
fn find_node(s: &str, n: usize, from: usize) -> (r: Option<FoundNode>)
    requires
        n == s@.len(),
        from <= n,
    ensures
        match first_node(s@, from as nat) {
            Some(span) => r matches Some(f) && found_view(f) == span && f.end <= n,
            None => r is None,
        },
{
    let mut i: usize = from;
    while i < n
        invariant
            from <= i <= n,
            n == s@.len(),
            first_node(s@, from as nat) == first_node(s@, i as nat),
        decreases n - i,
    {
        match read_node_at(s, n, i) {
            Some(f) => {
                return Some(f);
            },
            None => {},
        }
        i = i + 1;
    }
    None
}

/// A Lavalink node named in the configuration.
#[derive(Debug, Clone, PartialEq, Eq)]
pub struct NodeConfig {
    /// The host and port of the node, `host:port`.
    pub host: String,
    /// The password of the node.
    pub password: String,
    /// Whether the node is reached over TLS: its query is `tls`.
    pub tls: bool,
}

/// Whether `config` is the node that `span` marks in `s`.
pub open spec fn config_of(s: Seq<char>, span: NodeSpan, config: NodeConfig) -> bool {
    &&& config.host@ == s.subrange(span.host.0 as int, span.host.1 as int)
    &&& config.password@ == s.subrange(span.password.0 as int, span.password.1 as int)
    &&& config.tls == (match span.query {
        Some(q) => s.subrange(q.0 as int, q.1 as int) == "tls"@,
        None => false,
    })
}

/// The parser of the nodes configuration.
pub struct ConfigParser<'a> {
    /// User agent.
    pub user_agent: &'a str,
}

impl<'a> ConfigParser<'a> {
    /// Creates a new instance of the parser.
    pub fn new(user_agent: &'a str) -> (r: Self)
        ensures
            r.user_agent == user_agent,
    {
        ConfigParser { user_agent }
    }

    /// Parses the configuration string into the nodes it names, in order.
    pub fn parse(&self, value: &str) -> (r: Vec<NodeConfig>)
        ensures
            r@.len() == nodes_from(value@, 0).len(),
            forall|k: int| 0 <= k < r@.len() ==> config_of(value@, nodes_from(value@, 0)[k], #[trigger] r@[k]),
    {
        let n = value.unicode_len();
        let ghost all = nodes_from(value@, 0);
        let mut nodes: Vec<NodeConfig> = Vec::new();
        let mut pos: usize = 0;
        loop
            invariant
                pos <= n,
                n == value@.len(),
                all == nodes_from(value@, 0),
                nodes_from(value@, pos as nat) == all.skip(nodes@.len() as int),
                nodes@.len() <= all.len(),
                forall|k: int| 0 <= k < nodes@.len() ==> config_of(value@, all[k], #[trigger] nodes@[k]),
            decreases n - pos,
        {
            let found = find_node(value, n, pos);
            proof {
                lemma_first_node_ends_after(value@, pos as nat);
            }
            match found {
                Some(f) => {
                    let host = value.substring_char(f.host.0, f.host.1);
                    let password = value.substring_char(f.password.0, f.password.1);
                    let tls = match f.query {
                        Some(q) => {
                            let query = value.substring_char(q.0, q.1);
                            same_query(query, "tls")
                        },
                        None => false,
                    };
                    let ghost k = nodes@.len() as int;
                    proof {
                        let span = found_view(f);
                        assert(nodes_from(value@, pos as nat) == seq![span] + nodes_from(value@, span.end));
                        assert(all.skip(k) =~= seq![span] + nodes_from(value@, span.end));
                        assert(k < all.len());
                        assert(all.skip(k)[0] == all[k]);
                        assert(all.skip(k).drop_first() =~= all.skip(k + 1));
                    }
                    nodes.push(NodeConfig { host: String::from_str(host), password: String::from_str(password), tls });
                    pos = f.end;
                },
                None => {
                    proof {
                        assert(all.skip(nodes@.len() as int).len() == 0);
                    }
                    return nodes;
                },
            }
        }
    }
}

/// Whether two texts are equal.
fn same_query(a: &str, b: &str) -> (r: bool)
    ensures
        r == (a@ == b@),
{
    crate::i18n::same_text(a, b)
}

/// Whether a text can be sent as a header value: every character is a tab, or at
/// least a space and not DEL.
pub open spec fn header_text_ok(s: Seq<char>) -> bool {
    forall|i: int| 0 <= i < s.len() ==> s[i] == '\t' || (' ' <= #[trigger] s[i] && s[i] != '\x7f')
}

/// Whether the `url` crate parses a text as a URL.
pub uninterp spec fn url_accepts(text: Seq<char>) -> bool;

/// Whether the `http` crate builds a URI from a scheme, an authority and a path.
pub uninterp spec fn uri_accepts(scheme: Seq<char>, authority: Seq<char>, path: Seq<char>) -> bool;

/// Whether `text` can be sent as a header value.
///
/// Calls `http::HeaderValue::from_str`, which refuses the text when one of its bytes
/// is below 32 (but for a tab) or is 127; the bytes of a character beyond ASCII are
/// all at least 128, so the claim is stated over the characters.
#[verifier::external_body]
fn header_value_accepts(text: &str) -> (r: bool)
    ensures
        r == header_text_ok(text@),
{
    http::HeaderValue::from_str(text).is_ok()
}

/// Whether `text` parses as a URL.
///
/// Calls `url::Url::parse`; the contract only names its verdict, a function of the text.
#[verifier::external_body]
fn parses_as_url(text: &str) -> (r: bool)
    ensures
        r == url_accepts(text@),
{
    url::Url::parse(text).is_ok()
}

/// Whether a URI builds from `scheme`, `authority` and `path`.
///
/// Calls `http::Uri::builder` with the three parts and `build`; the contract only
/// names its verdict, a function of the parts.
#[verifier::external_body]
fn builds_uri(scheme: &str, authority: &str, path: &str) -> (r: bool)
    ensures
        r == uri_accepts(scheme@, authority@, path@),
{
    http::Uri::builder().scheme(scheme).authority(authority).path_and_query(path).build().is_ok()
}

/// Whether a node can be reached as configured: its password can be sent as a
/// header, its HTTP address parses and its WebSocket address builds.
pub open spec fn node_usable(node: NodeConfig) -> bool {
    &&& header_text_ok(node.password@)
    &&& url_accepts((if node.tls { "https"@ } else { "http"@ }) + "://"@ + node.host@)
    &&& uri_accepts(if node.tls { "wss"@ } else { "ws"@ }, node.host@, "/v4/websocket"@)
}

/// The nodes whose flag in `usable` is set, in order.
pub open spec fn kept_nodes(nodes: Seq<NodeConfig>, usable: Seq<bool>) -> Seq<NodeConfig>
    decreases nodes.len(),
{
    if nodes.len() == 0 {
        Seq::empty()
    } else {
        let rest = kept_nodes(nodes.drop_last(), usable.take(nodes.len() - 1));
        if usable[nodes.len() - 1] {
            rest.push(nodes.last())
        } else {
            rest
        }
    }
}

/// Keeps the nodes whose flag in `usable` is set, in order.
pub fn keep_usable(nodes: Vec<NodeConfig>, usable: &Vec<bool>) -> (r: Vec<NodeConfig>)
    requires
        usable@.len() == nodes@.len(),
    ensures
        r@ == kept_nodes(nodes@, usable@),
{
    let ghost all = nodes@;
    let mut source = nodes;
    let mut kept: Vec<NodeConfig> = Vec::new();
    let mut k: usize = 0;
    let n = usable.len();
    while k < n
        invariant
            n == usable@.len() == all.len(),
            k <= n,
            source@ == all.skip(k as int),
            kept@ == kept_nodes(all.take(k as int), usable@.take(k as int)),
        decreases n - k,
    {
        let node = source.remove(0);
        proof {
            assert(all.take(k + 1).drop_last() =~= all.take(k as int));
            assert(usable@.take(k + 1).take(k as int) =~= usable@.take(k as int));
            assert(all.skip(k as int)[0] == all[k as int]);
            assert(source@ =~= all.skip(k + 1));
        }
        if usable[k] {
            kept.push(node);
        }
        k = k + 1;
    }
    proof {
        assert(all.take(n as int) =~= all);
        assert(usable@.take(n as int) =~= usable@);
    }
    kept
}

/// The nodes that can be reached as configured, in order.
pub fn usable_nodes(nodes: Vec<NodeConfig>) -> (r: Vec<NodeConfig>)
    ensures
        r@ == kept_nodes(nodes@, Seq::new(nodes@.len(), |i: int| node_usable(nodes@[i]))),
{
    let mut usable: Vec<bool> = Vec::new();
    let mut k: usize = 0;
    while k < nodes.len()
        invariant
            k <= nodes@.len(),
            usable@ =~= Seq::new(k as nat, |i: int| node_usable(nodes@[i])),
        decreases nodes@.len() - k,
    {
        let node = &nodes[k];
        let base = crate::routes::http_base(node.host.as_str(), node.tls);
        let scheme = crate::routes::websocket_scheme(node.tls);
        let ok = header_value_accepts(node.password.as_str()) && parses_as_url(base.as_str())
            && builds_uri(scheme, node.host.as_str(), "/v4/websocket");
        usable.push(ok);
        k = k + 1;
    }
    keep_usable(nodes, &usable)
}

} // verus!
