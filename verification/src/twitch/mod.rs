//! Requests to the Twitch API: the headers it asks for, and the URL that
//! starts the authorization of this application.

use vstd::prelude::*;

pub mod channel;

verus! {

/// The media type that selects version 3 of the Twitch API.
pub const TWITCH_ACCEPT: &'static str = "application/vnd.twitchtv.v3+json";

/// The page of the Twitch API where a user authorizes this application.
pub const AUTHORIZE_ENDPOINT: &'static str = "https://api.twitch.tv/kraken/oauth2/authorize";

/// Where Twitch sends the user's browser back after authorization: the local
/// token server.
pub const REDIRECT_URI: &'static str = "http://localhost:7684";

/// The headers that every request to the Twitch API carries, in order: the
/// version of the API, and the client id of this application.
pub open spec fn twitch_header_list(client_id: Seq<char>) -> Seq<(Seq<char>, Seq<char>)> {
    seq![("Accept"@, TWITCH_ACCEPT@), ("Client-ID"@, client_id)]
}

/// The headers that every request to the Twitch API carries.
pub fn twitch_headers(client_id: &str) -> (h: Vec<(String, String)>)
    ensures
        h.deep_view() == twitch_header_list(client_id@),
{
    let mut h: Vec<(String, String)> = Vec::new();
    h.push((String::from_str("Accept"), String::from_str(TWITCH_ACCEPT)));
    h.push((String::from_str("Client-ID"), client_id.to_owned()));
    proof {
        assert(h.deep_view() =~= twitch_header_list(client_id@));
    }
    h
}

/// The UTF-8 encoding of a character.
pub open spec fn utf8_bytes(c: char) -> Seq<u8> {
    let n = c as u32;
    if n < 0x80 {
        seq![n as u8]
    } else if n < 0x800 {
        seq![(0xc0 + n / 0x40) as u8, (0x80 + n % 0x40) as u8]
    } else if n < 0x1_0000 {
        seq![(0xe0 + n / 0x1000) as u8, (0x80 + (n / 0x40) % 0x40) as u8, (0x80 + n % 0x40) as u8]
    } else {
        seq![
            (0xf0 + n / 0x4_0000) as u8,
            (0x80 + (n / 0x1000) % 0x40) as u8,
            (0x80 + (n / 0x40) % 0x40) as u8,
            (0x80 + n % 0x40) as u8,
        ]
    }
}

/// The upper-case hexadecimal digit of `n` (for `n < 16`).
pub open spec fn upper_hex_digit(n: u8) -> char {
    if n < 10 {
        (('0' as u8) + n) as char
    } else {
        (('A' as u8) + n - 10) as char
    }
}

/// How the form serializer writes one byte: the ASCII letters and digits and
/// `* - . _` as themselves, the space as `+`, every other byte as `%` and two
/// upper-case hexadecimal digits.
pub open spec fn form_byte(b: u8) -> Seq<char> {
    if b == 0x2a || b == 0x2d || b == 0x2e || b == 0x5f || (0x30 <= b <= 0x39) || (0x41 <= b
        <= 0x5a) || (0x61 <= b <= 0x7a) {
        seq![b as char]
    } else if b == 0x20 {
        seq!['+']
    } else {
        seq!['%', upper_hex_digit(b / 16), upper_hex_digit(b % 16)]
    }
}

/// The form serialization of a byte string.
pub open spec fn form_bytes(bytes: Seq<u8>) -> Seq<char>
    decreases bytes.len(),
{
    if bytes.len() == 0 {
        Seq::empty()
    } else {
        form_bytes(bytes.drop_last()) + form_byte(bytes.last())
    }
}

/// The form serialization of a string: of its UTF-8 bytes, character by
/// character.
pub open spec fn form_string(s: Seq<char>) -> Seq<char>
    decreases s.len(),
{
    if s.len() == 0 {
        Seq::empty()
    } else {
        form_string(s.drop_last()) + form_bytes(utf8_bytes(s.last()))
    }
}

/// The form serialization of one name/value pair: `name=value`.
pub open spec fn form_pair(pair: (Seq<char>, Seq<char>)) -> Seq<char> {
    form_string(pair.0) + "="@ + form_string(pair.1)
}

/// The `application/x-www-form-urlencoded` serialization of a list of
/// name/value pairs, as the url crate's form serializer writes it: the pairs
/// in order, separated by `&`.
pub open spec fn form_urlencoded_text(pairs: Seq<(Seq<char>, Seq<char>)>) -> Seq<char>
    decreases pairs.len(),
{
    if pairs.len() == 0 {
        Seq::empty()
    } else if pairs.len() == 1 {
        form_pair(pairs[0])
    } else {
        form_urlencoded_text(pairs.drop_last()) + "&"@ + form_pair(pairs.last())
    }
}

/// Calls `url::form_urlencoded::Serializer::extend_pairs` on a fresh, empty
/// string and takes the string back with `finish`.
///
/// Trusted: the serializer starts from the empty string, and for each pair
/// writes `&` (except before the first), the name, `=` and the value; a
/// string is written by `byte_serialize` over its UTF-8 bytes (the url
/// crate's `EncodingOverride::utf8` encodes with `as_bytes`), which copies
/// the unreserved bytes, writes a space as `+` and any other byte as
/// `percent_encode_byte` gives it, `%` and two upper-case hexadecimal digits.
#[verifier::external_body]
fn encode_query(pairs: &Vec<(String, String)>) -> (q: String)
    ensures
        q@ == form_urlencoded_text(pairs.deep_view()),
{
    url::form_urlencoded::Serializer::new(String::new()).extend_pairs(pairs.iter()).finish()
}

/// A serialized character never separates: it is neither `&` nor `=`.
pub open spec fn not_separator(c: char) -> bool {
    c != '&' && c != '='
}

proof fn lemma_form_byte(b: u8)
    ensures
        form_byte(b).len() >= 1,
        forall|i: int| 0 <= i < form_byte(b).len() ==> not_separator(#[trigger] form_byte(b)[i]),
{
    assert(b / 16 < 16 && b % 16 < 16);
    assert forall|i: int| 0 <= i < form_byte(b).len() implies not_separator(
        #[trigger] form_byte(b)[i],
    ) by {
        let c = form_byte(b)[i];
        if b == 0x2a || b == 0x2d || b == 0x2e || b == 0x5f || (0x30 <= b <= 0x39) || (0x41 <= b
            <= 0x5a) || (0x61 <= b <= 0x7a) {
            assert(c == b as char);
            assert(c as u32 == b as u32);
        } else if b != 0x20 && i > 0 {
            let n: u8 = if i == 1 { b / 16 } else { b % 16 };
            assert(c == upper_hex_digit(n));
            assert(c as u32 != 0x26 && c as u32 != 0x3d);
        }
    }
}

proof fn lemma_form_bytes(bytes: Seq<u8>)
    ensures
        form_bytes(bytes).len() >= bytes.len(),
        forall|i: int| 0 <= i < form_bytes(bytes).len() ==> not_separator(
            #[trigger] form_bytes(bytes)[i],
        ),
    decreases bytes.len(),
{
    if bytes.len() > 0 {
        lemma_form_bytes(bytes.drop_last());
        lemma_form_byte(bytes.last());
        let front = form_bytes(bytes.drop_last());
        let back = form_byte(bytes.last());
        assert forall|i: int| 0 <= i < form_bytes(bytes).len() implies not_separator(
            #[trigger] form_bytes(bytes)[i],
        ) by {
            if i < front.len() {
                assert(form_bytes(bytes)[i] == front[i]);
            } else {
                assert(form_bytes(bytes)[i] == back[i - front.len()]);
            }
        }
    }
}

/// The form serialization of a string keeps it whole and delimited: it is
/// at least as long as the string (every character gives at least one), and
/// holds neither `&` nor `=`, so a `name=value` pair ends exactly where the
/// serialized value ends.
pub proof fn law_form_string_keeps_whole(x: Seq<char>)
    ensures
        form_string(x).len() >= x.len(),
        forall|i: int| 0 <= i < form_string(x).len() ==> not_separator(#[trigger] form_string(x)[i]),
    decreases x.len(),
{
    if x.len() > 0 {
        law_form_string_keeps_whole(x.drop_last());
        let bytes = utf8_bytes(x.last());
        assert(bytes.len() >= 1);
        lemma_form_bytes(bytes);
        let front = form_string(x.drop_last());
        let back = form_bytes(bytes);
        assert forall|i: int| 0 <= i < form_string(x).len() implies not_separator(
            #[trigger] form_string(x)[i],
        ) by {
            if i < front.len() {
                assert(form_string(x)[i] == front[i]);
            } else {
                assert(form_string(x)[i] == back[i - front.len()]);
            }
        }
    }
}

/// The query of the authorization URL, in order: the client id, the response
/// type `token`, the redirect URI and the requested scope.
pub open spec fn authorize_query_pairs(client_id: Seq<char>, scope: Seq<char>) -> Seq<
    (Seq<char>, Seq<char>),
> {
    seq![
        ("client_id"@, client_id),
        ("response_type"@, "token"@),
        ("redirect_uri"@, REDIRECT_URI@),
        ("scope"@, scope),
    ]
}

/// The text of the authorization URL: the authorization endpoint, `?`, and
/// the form-urlencoded query.
pub open spec fn authorize_url_text(client_id: Seq<char>, scope: Seq<char>) -> Seq<char> {
    AUTHORIZE_ENDPOINT@ + "?"@ + form_urlencoded_text(authorize_query_pairs(client_id, scope))
}

/// The authorization URL carries the client id and the scope whole: after
/// the endpoint and `?` come the pair `client_id=` with the serialization of
/// all of `client_id`, then `&response_type=token`, `&redirect_uri=` with the
/// redirect URI, and last `&scope=` with the serialization of all of `scope`;
/// a serialized value is at least as long as the value and holds no `&` or
/// `=`, so each ends exactly where the next pair begins.
pub proof fn law_authorize_url_carries_whole_values(client_id: Seq<char>, scope: Seq<char>)
    ensures
        authorize_url_text(client_id, scope) == AUTHORIZE_ENDPOINT@ + "?"@ + (form_pair(
            ("client_id"@, client_id),
        ) + "&"@ + form_pair(("response_type"@, "token"@)) + "&"@ + form_pair(
            ("redirect_uri"@, REDIRECT_URI@),
        ) + "&"@ + form_pair(("scope"@, scope))),
        form_pair(("client_id"@, client_id)) == form_string("client_id"@) + "="@ + form_string(
            client_id,
        ),
        form_pair(("scope"@, scope)) == form_string("scope"@) + "="@ + form_string(scope),
        forall|i: int| 0 <= i < form_string(client_id).len() ==> not_separator(
            #[trigger] form_string(client_id)[i],
        ),
        forall|i: int| 0 <= i < form_string(scope).len() ==> not_separator(
            #[trigger] form_string(scope)[i],
        ),
        form_string(client_id).len() >= client_id.len(),
        form_string(scope).len() >= scope.len(),
{
    lemma_authorize_query_text(client_id, scope);
    law_form_string_keeps_whole(client_id);
    law_form_string_keeps_whole(scope);
}

proof fn lemma_authorize_query_text(client_id: Seq<char>, scope: Seq<char>)
    ensures
        form_urlencoded_text(authorize_query_pairs(client_id, scope)) == form_pair(
            ("client_id"@, client_id),
        ) + "&"@ + form_pair(("response_type"@, "token"@)) + "&"@ + form_pair(
            ("redirect_uri"@, REDIRECT_URI@),
        ) + "&"@ + form_pair(("scope"@, scope)),
{
    let pairs = authorize_query_pairs(client_id, scope);
    let p1 = seq![("client_id"@, client_id)];
    let p2 = p1.push(("response_type"@, "token"@));
    let p3 = p2.push(("redirect_uri"@, REDIRECT_URI@));
    assert(pairs =~= p3.push(("scope"@, scope)));
    assert(pairs.drop_last() =~= p3);
    assert(p3.drop_last() =~= p2);
    assert(p2.drop_last() =~= p1);
    assert(form_urlencoded_text(p1) == form_pair(("client_id"@, client_id)));
    assert(form_urlencoded_text(p2) == form_urlencoded_text(p1) + "&"@ + form_pair(
        ("response_type"@, "token"@),
    ));
    assert(form_urlencoded_text(p3) == form_urlencoded_text(p2) + "&"@ + form_pair(
        ("redirect_uri"@, REDIRECT_URI@),
    ));
}

/// The URL where the user authorizes this application (whose Twitch client
/// id is `client_id`) for `scope`, with an implicit grant whose token is sent
/// to the local token server.
pub fn authorize_url(client_id: &str, scope: &str) -> (u: String)
    ensures
        u@ == authorize_url_text(client_id@, scope@),
{
    let mut pairs: Vec<(String, String)> = Vec::new();
    pairs.push((String::from_str("client_id"), client_id.to_owned()));
    pairs.push((String::from_str("response_type"), String::from_str("token")));
    pairs.push((String::from_str("redirect_uri"), String::from_str(REDIRECT_URI)));
    pairs.push((String::from_str("scope"), scope.to_owned()));
    proof {
        assert(pairs.deep_view() =~= authorize_query_pairs(client_id@, scope@));
    }
    let query = encode_query(&pairs);
    let mut u = String::from_str(AUTHORIZE_ENDPOINT);
    u.append("?");
    u.append(query.as_str());
    u
}

/// The domains under which Twitch runs its ingest servers: the servers that
/// receive streams.
pub const TWITCH_INGEST_DOMAIN: &'static str = "twitch.tv";

/// The domain of Twitch's newer ingest servers.
pub const TWITCH_CONTRIBUTE_DOMAIN: &'static str = "live-video.net";

/// The host of `url`, as the url crate reads it; `None` where the url crate
/// does not accept `url` as a URL, or the URL has no host.
pub uninterp spec fn url_host(url: Seq<char>) -> Option<Seq<char>>;

/// Calls `url::Url::parse` on `url` and takes `Url::host_str` of the result.
///
/// Trusted: `None` where the url crate refuses `url` or finds no host in it;
/// otherwise the host (named, not stated).
#[verifier::external_body]
fn parse_url_host(url: &str) -> (host: Option<String>)
    ensures
        match host {
            Some(h) => url_host(url@) == Some(h@),
            None => url_host(url@) is None,
        },
{
    match url::Url::parse(url) {
        Ok(u) => match u.host_str() {
            Some(h) => Some(h.to_string()),
            None => None,
        },
        Err(_) => None,
    }
}

/// Whether `host` is `domain` or a name under it (a non-empty label, a dot,
/// then `domain`).
pub open spec fn in_domain(host: Seq<char>, domain: Seq<char>) -> bool {
    ||| host == domain
    ||| host.len() > domain.len() + 1 && host.subrange(
        host.len() - domain.len() - 1,
        host.len() as int,
    ) == "."@ + domain
}

/// Whether `host` is `domain` or a name under it.
fn host_in_domain(host: &str, domain: &str) -> (b: bool)
    ensures
        b == in_domain(host@, domain@),
{
    if host.to_owned() == domain.to_owned() {
        return true;
    }
    let n = host.unicode_len();
    let d = domain.unicode_len();
    if n > 1 && n - 1 > d {
        let tail = host.substring_char(n - d - 1, n);
        let mut dotted = String::from_str(".");
        dotted.append(domain);
        tail.to_owned() == dotted
    } else {
        false
    }
}

/// Whether `url` points at a Twitch ingest server: its host is under one of
/// Twitch's ingest domains.
pub open spec fn is_twitch_ingest(url: Seq<char>) -> bool {
    url_host(url) matches Some(h) && (in_domain(h, TWITCH_INGEST_DOMAIN@) || in_domain(
        h,
        TWITCH_CONTRIBUTE_DOMAIN@,
    ))
}

/// Whether `url` (the server URL of a streaming service) points at a Twitch
/// ingest server.
pub fn is_twitch_ingest_url(url: &str) -> (b: bool)
    ensures
        b == is_twitch_ingest(url@),
{
    match parse_url_host(url) {
        Some(h) => host_in_domain(h.as_str(), TWITCH_INGEST_DOMAIN) || host_in_domain(
            h.as_str(),
            TWITCH_CONTRIBUTE_DOMAIN,
        ),
        None => false,
    }
}

} // verus!
