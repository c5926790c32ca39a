//! Requests for the graph-visualization service.
//!
//! The service takes node and edge upserts as JSON posted to
//! `{endpoint}?operation=updateGraph`. The library builds the target URL and
//! the JSON bodies — including JSON string escaping — as verified code; the
//! HTTP POST itself is I/O and stays outside the library.

use vstd::prelude::*;
use vstd::string::StringExecFns;
use crate::text::{dec_chars, dec_of, digit_char, string_from_chars};

verus! {

/// The hexadecimal digit character for `d`.
pub open spec fn hex_char(d: nat) -> char {
    if d < 10 {
        digit_char(d)
    } else if d == 10 {
        'a'
    } else if d == 11 {
        'b'
    } else if d == 12 {
        'c'
    } else if d == 13 {
        'd'
    } else if d == 14 {
        'e'
    } else {
        'f'
    }
}

/// The JSON escape of one character: quotes and backslashes are escaped, the
/// named control characters use their short form, other control characters
/// use a `\u00..` form, everything else stands as it is.
pub open spec fn json_escaped_char(c: char) -> Seq<char> {
    if c == '"' {
        seq!['\\', '"']
    } else if c == '\\' {
        seq!['\\', '\\']
    } else if c == '\n' {
        seq!['\\', 'n']
    } else if c == '\r' {
        seq!['\\', 'r']
    } else if c == '\t' {
        seq!['\\', 't']
    } else if (c as u32) < 0x20 {
        seq!['\\', 'u', '0', '0', hex_char((c as u32 / 16) as nat), hex_char(
            (c as u32 % 16) as nat,
        )]
    } else {
        seq![c]
    }
}

/// The JSON escape of a string's characters.
pub open spec fn json_escape_of(s: Seq<char>) -> Seq<char>
    decreases s.len(),
{
    if s.len() == 0 {
        Seq::empty()
    } else {
        json_escaped_char(s[0]) + json_escape_of(s.drop_first())
    }
}

/// A JSON string literal: the escaped characters between double quotes.
pub open spec fn json_string_of(s: Seq<char>) -> Seq<char> {
    seq!['"'] + json_escape_of(s) + seq!['"']
}

/// The node-upsert body: `{"an":{<id>:{"label":<label>,"depth":<depth>}}}`.
pub open spec fn node_body_of(node_id: Seq<char>, label: Seq<char>, depth: nat) -> Seq<char> {
    "{\"an\":{"@ + json_string_of(node_id) + ":{\"label\":"@ + json_string_of(label)
        + ",\"depth\":"@ + dec_of(depth) + "}}}"@
}

/// The edge-upsert body:
/// `{"ae":{<id>:{"source":<s>,"target":<t>,"directed":<d>}}}`.
pub open spec fn edge_body_of(
    edge_id: Seq<char>,
    source: Seq<char>,
    target: Seq<char>,
    directed: bool,
) -> Seq<char> {
    "{\"ae\":{"@ + json_string_of(edge_id) + ":{\"source\":"@ + json_string_of(source)
        + ",\"target\":"@ + json_string_of(target) + ",\"directed\":"@ + (if directed {
        "true"@
    } else {
        "false"@
    }) + "}}}"@
}

fn hex_char_exec(d: u32) -> (r: char)
    requires
        d < 16,
    ensures
        r == hex_char(d as nat),
{
    if d == 0 {
        '0'
    } else if d == 1 {
        '1'
    } else if d == 2 {
        '2'
    } else if d == 3 {
        '3'
    } else if d == 4 {
        '4'
    } else if d == 5 {
        '5'
    } else if d == 6 {
        '6'
    } else if d == 7 {
        '7'
    } else if d == 8 {
        '8'
    } else if d == 9 {
        '9'
    } else if d == 10 {
        'a'
    } else if d == 11 {
        'b'
    } else if d == 12 {
        'c'
    } else if d == 13 {
        'd'
    } else if d == 14 {
        'e'
    } else {
        'f'
    }
}

/// `s` as a JSON string literal, quotes included.
pub fn json_string(s: &str) -> (r: String)
    ensures
        r@ == json_string_of(s@),
{
    let cs = crate::text::chars_of(s);
    let n: usize = cs.len();
    let mut v: Vec<char> = Vec::new();
    v.push('"');
    assert(cs@.skip(0) == cs@);
    for i in 0..n
        invariant
            n == cs@.len(),
            seq!['"'] + json_escape_of(cs@) =~= v@ + json_escape_of(cs@.skip(i as int)),
    {
        let c = cs[i];
        if c == '"' {
            v.push('\\');
            v.push('"');
        } else if c == '\\' {
            v.push('\\');
            v.push('\\');
        } else if c == '\n' {
            v.push('\\');
            v.push('n');
        } else if c == '\r' {
            v.push('\\');
            v.push('r');
        } else if c == '\t' {
            v.push('\\');
            v.push('t');
        } else if (c as u32) < 0x20 {
            v.push('\\');
            v.push('u');
            v.push('0');
            v.push('0');
            v.push(hex_char_exec((c as u32) / 16));
            v.push(hex_char_exec((c as u32) % 16));
        } else {
            v.push(c);
        }
        assert(cs@.skip(i as int).drop_first() == cs@.skip(i + 1));
        assert(cs@.skip(i as int)[0] == cs@[i as int]);
    }
    assert(json_escape_of(cs@.skip(n as int)) =~= Seq::<char>::empty());
    v.push('"');
    assert(v@ =~= json_string_of(s@));
    string_from_chars(&v)
}

/// One ready-to-send upsert: the URL to post to and the JSON body.
pub struct GephiRequest {
    pub url: String,
    pub body: String,
}

/// Builds the requests that upsert nodes and edges at the visualization
/// service endpoint it was created with.
pub struct GephiClient {
    base_url: String,
}

impl GephiClient {
    /// The endpoint the client was created with.
    pub closed spec fn spec_base_url(&self) -> Seq<char> {
        self.base_url@
    }

    pub fn new(base_url: &str) -> (r: Self)
        ensures
            r.spec_base_url() == base_url@,
    {
        GephiClient { base_url: String::from_str(base_url) }
    }

    /// The URL every upsert is posted to.
    pub fn post_url(&self) -> (r: String)
        ensures
            r@ == self.spec_base_url() + "?operation=updateGraph"@,
    {
        let mut r = self.base_url.clone();
        r.append("?operation=updateGraph");
        r
    }

    /// The body that upserts one node with a label and a depth.
    pub fn add_node_body(&self, node_id: &str, label: &str, depth: usize) -> (r: String)
        ensures
            r@ == node_body_of(node_id@, label@, depth as nat),
    {
        let mut r = String::from_str("{\"an\":{");
        r.append(json_string(node_id).as_str());
        r.append(":{\"label\":");
        r.append(json_string(label).as_str());
        r.append(",\"depth\":");
        r.append(string_from_chars(&dec_chars(depth)).as_str());
        r.append("}}}");
        assert(r@ =~= node_body_of(node_id@, label@, depth as nat));
        r
    }

    /// The body that upserts one directed or undirected edge.
    pub fn add_edge_body(
        &self,
        edge_id: &str,
        source: &str,
        target: &str,
        directed: bool,
    ) -> (r: String)
        ensures
            r@ == edge_body_of(edge_id@, source@, target@, directed),
    {
        let mut r = String::from_str("{\"ae\":{");
        r.append(json_string(edge_id).as_str());
        r.append(":{\"source\":");
        r.append(json_string(source).as_str());
        r.append(",\"target\":");
        r.append(json_string(target).as_str());
        r.append(",\"directed\":");
        if directed {
            r.append("true");
        } else {
            r.append("false");
        }
        r.append("}}}");
        assert(r@ =~= edge_body_of(edge_id@, source@, target@, directed));
        r
    }
}

} // verus!
