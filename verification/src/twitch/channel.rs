//! The channel records of the Twitch API, and the JSON body of a channel
//! update.

use vstd::prelude::*;
use vstd::std_specs::convert::FromSpecImpl;

verus! {

/// The settings of a channel that the dashboard changes: its status (title)
/// and its game. A field that is `None` is sent as JSON `null`.
pub struct Channel {
    pub status: Option<String>,
    pub game: Option<String>,
}

/// The request body of a channel update: the channel settings wrapped in an
/// object under the key `channel`.
pub struct ChannelUpdate {
    channel: Channel,
}

/// What the Twitch API says of the authenticated user's channel; only its
/// name is read.
pub struct ChannelInfo {
    pub name: String,
}

/// The lower-case hexadecimal digit of `n` (for `n < 16`).
pub open spec fn lower_hex_digit(n: u32) -> char {
    if n < 10 {
        (('0' as u32) + n) as char
    } else {
        (('a' as u32) + n - 10) as char
    }
}

/// How serde_json writes one character inside a JSON string: the quote and
/// the backslash behind a backslash; backspace, tab, line feed, form feed and
/// carriage return as `\b \t \n \f \r`; the other control characters below
/// U+0020 as `\u00` and two lower-case hexadecimal digits; every other
/// character as itself.
pub open spec fn json_escape_char(c: char) -> Seq<char> {
    let n = c as u32;
    if c == '"' {
        seq!['\\', '"']
    } else if c == '\\' {
        seq!['\\', '\\']
    } else if n == 0x08 {
        seq!['\\', 'b']
    } else if n == 0x09 {
        seq!['\\', 't']
    } else if n == 0x0a {
        seq!['\\', 'n']
    } else if n == 0x0c {
        seq!['\\', 'f']
    } else if n == 0x0d {
        seq!['\\', 'r']
    } else if n < 0x20 {
        seq!['\\', 'u', '0', '0', lower_hex_digit(n / 16), lower_hex_digit(n % 16)]
    } else {
        seq![c]
    }
}

/// The characters of `s`, each written as inside a JSON string.
pub open spec fn json_escaped(s: Seq<char>) -> Seq<char>
    decreases s.len(),
{
    if s.len() == 0 {
        Seq::empty()
    } else {
        json_escaped(s.drop_last()) + json_escape_char(s.last())
    }
}

/// The JSON string literal that serde_json writes for `s`: `s` escaped, in
/// double quotes.
pub open spec fn json_string_literal(s: Seq<char>) -> Seq<char> {
    seq!['"'] + json_escaped(s) + seq!['"']
}

/// Calls `serde_json::to_string` on a string slice.
///
/// Trusted: serde_json writes a string as a quoted literal, escaping each
/// byte by its `ESCAPE` table (the quote, the backslash and the control
/// characters below U+0020; see `json_escape_char`) and copying every other
/// byte, so the multi-byte UTF-8 sequences of other characters are copied
/// whole. It documents that serialization fails only where the value's
/// `Serialize` implementation decides to fail or where a map has non-string
/// keys; neither holds of a string written to a `Vec`, so the call always
/// succeeds.
#[verifier::external_body]
fn json_string(s: &str) -> (t: String)
    ensures
        t@ == json_string_literal(s@),
{
    serde_json::to_string(s).expect("a string always serializes")
}

/// The text of an optional string.
pub open spec fn string_view(v: Option<String>) -> Option<Seq<char>> {
    match v {
        Some(s) => Some(s@),
        None => None,
    }
}

/// The JSON text of an optional string field: `null` or the string literal.
pub open spec fn json_optional_text(v: Option<Seq<char>>) -> Seq<char> {
    match v {
        Some(s) => json_string_literal(s),
        None => "null"@,
    }
}

/// The JSON text of a channel update with the given status and game, as
/// serde writes the derived serialization of `ChannelUpdate`: compact, the
/// fields in declaration order.
pub open spec fn update_json_text(status: Option<Seq<char>>, game: Option<Seq<char>>) -> Seq<
    char,
> {
    "{\"channel\":{\"status\":"@ + json_optional_text(status) + ",\"game\":"@
        + json_optional_text(game) + "}}"@
}

/// The JSON text of a channel update that carries `c`.
pub open spec fn channel_update_json(c: Channel) -> Seq<char> {
    update_json_text(string_view(c.status), string_view(c.game))
}

/// Whether a character is written as itself inside a JSON string: it is not
/// a quote, a backslash or a control character below U+0020.
pub open spec fn json_plain_char(c: char) -> bool {
    c != '"' && c != '\\' && c as u32 >= 0x20
}

/// Escaping keeps every character: each gives at least one, so the escaped
/// text is at least as long as the string; and a string of plain characters
/// is written exactly as it is, between double quotes.
pub proof fn law_json_literal_keeps_whole(s: Seq<char>)
    ensures
        json_escaped(s).len() >= s.len(),
        (forall|i: int| 0 <= i < s.len() ==> json_plain_char(#[trigger] s[i])) ==> json_escaped(s)
            == s,
        (forall|i: int| 0 <= i < s.len() ==> json_plain_char(#[trigger] s[i]))
            ==> json_string_literal(s) == seq!['"'] + s + seq!['"'],
    decreases s.len(),
{
    if s.len() > 0 {
        law_json_literal_keeps_whole(s.drop_last());
        if forall|i: int| 0 <= i < s.len() ==> json_plain_char(#[trigger] s[i]) {
            assert forall|i: int| 0 <= i < s.drop_last().len() implies json_plain_char(
                #[trigger] s.drop_last()[i],
            ) by {
                assert(s.drop_last()[i] == s[i]);
            }
            assert(json_plain_char(s[s.len() - 1]));
            assert(json_escape_char(s.last()) == seq![s.last()]);
            assert(s.drop_last().push(s.last()) =~= s);
            assert(json_escaped(s) =~= s);
        }
    } else {
        assert(json_escaped(s) =~= s);
    }
}

/// The body of a channel update holds the channel's status and game whole:
/// each is the JSON literal of the entire string (or `null`), under the keys
/// `status` and `game` of the object under `channel`.
pub proof fn law_update_json_holds_whole_fields(c: Channel)
    ensures
        channel_update_json(c) == "{\"channel\":{\"status\":"@ + match c.status {
            Some(s) => json_string_literal(s@),
            None => "null"@,
        } + ",\"game\":"@ + match c.game {
            Some(g) => json_string_literal(g@),
            None => "null"@,
        } + "}}"@,
{
}

fn push_json_optional_string(out: &mut String, v: &Option<String>)
    ensures
        final(out)@ == old(out)@ + json_optional_text(string_view(*v)),
{
    match v {
        Some(s) => {
            let lit = json_string(s.as_str());
            out.append(lit.as_str());
        },
        None => {
            out.append("null");
        },
    }
}

impl ChannelUpdate {
    /// The channel settings held by the update.
    pub closed spec fn channel_of(&self) -> Channel {
        self.channel
    }

    /// Wraps channel settings in an update.
    pub fn new(channel: Channel) -> (u: ChannelUpdate)
        ensures
            u.channel_of() == channel,
    {
        ChannelUpdate { channel: channel }
    }

    /// The JSON text of the update, as sent in the body of the request.
    pub fn to_json(&self) -> (body: String)
        ensures
            body@ == channel_update_json(self.channel_of()),
    {
        let mut out = String::from_str("{\"channel\":{\"status\":");
        push_json_optional_string(&mut out, &self.channel.status);
        out.append(",\"game\":");
        push_json_optional_string(&mut out, &self.channel.game);
        out.append("}}");
        out
    }
}

impl From<Channel> for ChannelUpdate {
    /// Wraps channel settings in an update.
    fn from(channel: Channel) -> (u: ChannelUpdate)
        ensures
            u.channel_of() == channel,
    {
        ChannelUpdate::new(channel)
    }
}

impl FromSpecImpl<Channel> for ChannelUpdate {
    open spec fn obeys_from_spec() -> bool {
        true
    }

    closed spec fn from_spec(v: Channel) -> ChannelUpdate {
        ChannelUpdate { channel: v }
    }
}

} // verus!
