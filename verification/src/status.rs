//! The answer to a status request: what the server says of itself, and the
//! JSON document that says it.

use crate::config::ConfigCollection;
use vstd::prelude::*;
use vstd::string::StringExecFns;

verus! {

/// The JSON text of the string `s`: `s` between double quotes, with the
/// characters that JSON does not take as they are written as escapes.
pub uninterp spec fn json_quoted(s: Seq<char>) -> Seq<char>;

/// `serde_json::to_string` on a string slice: the string as JSON text.
#[verifier::external_body]
pub(crate) fn json_string(s: &str) -> (r: String)
    ensures
        r@ == json_quoted(s@),
{
    serde_json::to_string(s).unwrap_or_default()
}

/// The character of the decimal digit `d`.
pub open spec fn digit_char(d: nat) -> char {
    if d == 0 {
        '0'
    } else if d == 1 {
        '1'
    } else if d == 2 {
        '2'
    } else if d == 3 {
        '3'
    } else if d == 4 {
        '4'
    } else if d == 5 {
        '5'
    } else if d == 6 {
        '6'
    } else if d == 7 {
        '7'
    } else if d == 8 {
        '8'
    } else {
        '9'
    }
}

/// `n` in decimal digits, without leading zeros.
pub open spec fn decimal(n: nat) -> Seq<char>
    decreases n,
{
    if n < 10 {
        seq![digit_char(n)]
    } else {
        decimal(n / 10).push(digit_char(n % 10))
    }
}

fn digit_str(d: u64) -> (r: &'static str)
    requires
        d < 10,
    ensures
        r@ == seq![digit_char(d as nat)],
{
    proof {
        reveal_strlit("0");
        reveal_strlit("1");
        reveal_strlit("2");
        reveal_strlit("3");
        reveal_strlit("4");
        reveal_strlit("5");
        reveal_strlit("6");
        reveal_strlit("7");
        reveal_strlit("8");
        reveal_strlit("9");
    }
    let r = if d == 0 {
        "0"
    } else if d == 1 {
        "1"
    } else if d == 2 {
        "2"
    } else if d == 3 {
        "3"
    } else if d == 4 {
        "4"
    } else if d == 5 {
        "5"
    } else if d == 6 {
        "6"
    } else if d == 7 {
        "7"
    } else if d == 8 {
        "8"
    } else {
        "9"
    };
    assert(r@ =~= seq![digit_char(d as nat)]);
    r
}

/// Writes `n` in decimal digits.
pub fn decimal_string(n: u64) -> (r: String)
    ensures
        r@ == decimal(n as nat),
    decreases n,
{
    if n < 10 {
        String::from_str(digit_str(n))
    } else {
        let mut r: String = decimal_string(n / 10);
        r.append(digit_str(n % 10));
        assert(r@ =~= decimal(n as nat));
        r
    }
}

/// The member that carries the favicon, with the comma behind it; nothing
/// where there is no favicon.
pub open spec fn favicon_member(favicon: Seq<char>) -> Seq<char> {
    if favicon.len() == 0 {
        Seq::empty()
    } else {
        "\"favicon\":"@ + json_quoted(favicon) + ","@
    }
}

/// The status document: one JSON object without white space, its members
/// in the order of their names. The sample of players is always empty.
pub open spec fn status_document(
    server_name: Seq<char>,
    server_protocol: u16,
    max_players: u64,
    online_players: u64,
    desc: Seq<char>,
    favicon: Seq<char>,
) -> Seq<char> {
    "{\"description\":{\"extra\":[{\"text\":"@ + json_quoted(desc) + "}],\"text\":\"\"},"@
        + favicon_member(favicon) + "\"players\":{\"max\":"@ + decimal(max_players as nat)
        + ",\"online\":"@ + decimal(online_players as nat)
        + ",\"sample\":[]},\"version\":{\"name\":"@ + json_quoted(server_name)
        + ",\"protocol\":"@ + decimal(server_protocol as nat) + "}}"@
}

/// Writes the status document.
pub fn server_response_json(
    server_name: &str,
    server_protocol: u16,
    max_players: u64,
    online_players: u64,
    desc: &str,
    favicon: &str,
) -> (result: String)
    ensures
        result@ == status_document(
            server_name@,
            server_protocol,
            max_players,
            online_players,
            desc@,
            favicon@,
        ),
{
    let mut result: String = String::from_str("{\"description\":{\"extra\":[{\"text\":");
    result.append(json_string(desc).as_str());
    result.append("}],\"text\":\"\"},");
    if !favicon.is_empty() {
        result.append("\"favicon\":");
        result.append(json_string(favicon).as_str());
        result.append(",");
    }
    assert(result@ =~= "{\"description\":{\"extra\":[{\"text\":"@ + json_quoted(desc@)
        + "}],\"text\":\"\"},"@ + favicon_member(favicon@));
    result.append("\"players\":{\"max\":");
    result.append(decimal_string(max_players).as_str());
    result.append(",\"online\":");
    result.append(decimal_string(online_players).as_str());
    result.append(",\"sample\":[]},\"version\":{\"name\":");
    result.append(json_string(server_name).as_str());
    result.append(",\"protocol\":");
    result.append(decimal_string(server_protocol as u64).as_str());
    result.append("}}");
    result
}

/// What the server says of itself to whoever asks for its status.
#[derive(Debug, Clone, PartialEq, Eq)]
pub struct ServerJsonStatus {
    pub server_name: String,
    pub server_protocol: u16,
    pub online_players: u8,
    pub max_players: u8,
    pub desc: String,
    pub favicon: String,
}

impl ServerJsonStatus {
    /// The status of a server that has just started with the configuration
    /// `cc`: nobody is online, the protocol is 578, there is no favicon.
    pub fn from(cc: &ConfigCollection) -> (r: ServerJsonStatus)
        ensures
            r.server_name@ == cc.net.server_name@,
            r.server_protocol == 578,
            r.online_players == 0,
            r.max_players == cc.auth.max_players,
            r.desc@ == cc.net.server_description@,
            r.favicon@.len() == 0,
    {
        Self {
            server_name: cc.net.server_name.as_str().to_owned(),
            server_protocol: 578,
            online_players: 0,
            max_players: cc.auth.max_players,
            desc: cc.net.server_description.as_str().to_owned(),
            favicon: String::new(),
        }
    }

    /// The status document of this status.
    pub open spec fn document(&self) -> Seq<char> {
        status_document(
            self.server_name@,
            self.server_protocol,
            self.max_players as u64,
            self.online_players as u64,
            self.desc@,
            self.favicon@,
        )
    }

    /// Writes the status document.
    pub fn to_json(&self) -> (result: String)
        ensures
            result@ == self.document(),
    {
        server_response_json(
            self.server_name.as_str(),
            self.server_protocol,
            self.max_players as u64,
            self.online_players as u64,
            self.desc.as_str(),
            self.favicon.as_str(),
        )
    }
}

} // verus!
