//! The local web server that receives the OAuth token: the landing page, and
//! the decision on each request it gets.

use vstd::prelude::*;

verus! {

/// The permissions that the dashboard asks of the user.
pub const TWITCH_PERMISSIONS_SCOPE: &'static str = "channel_read channel_editor";

/// The address the token server listens on.
pub const BIND_ADDRESS: &'static str = "0.0.0.0:7684";

/// The scheme, host and port under which requests to the token server are
/// read as URLs.
pub const SERVER_ORIGIN: &'static str = "http://localhost:7684";

/// The name of the query parameter that carries the token.
pub const TOKEN_PARAMETER: &'static str = "access_token";

/// What the browser is told once the token has arrived.
pub const TOKEN_RECEIVED_MESSAGE: &'static str = "You can close this page now.";

/// The landing page: an HTML document that runs `script`.
pub open spec fn index_page_text(script: Seq<char>) -> Seq<char> {
    "<html><head><script>"@ + script + "</script><body></body></html>"@
}

/// The landing page holds the script whole, between the opening tags (20
/// characters) and the closing ones (29 characters).
pub proof fn law_index_page_holds_whole_script(script: Seq<char>)
    ensures
        index_page_text(script).len() == script.len() + 49,
        index_page_text(script).subrange(20, 20 + script.len() as int) == script,
{
    reveal_strlit("<html><head><script>");
    reveal_strlit("</script><body></body></html>");
    assert(index_page_text(script).subrange(20, 20 + script.len() as int) =~= script);
}

/// The landing page that runs `script`.
pub fn index_page(script: &str) -> (page: String)
    ensures
        page@ == index_page_text(script@),
{
    let mut page = String::from_str("<html><head><script>");
    page.append(script);
    page.append("</script><body></body></html>");
    page
}

/// The target of a request: an absolute path (with its query), or any other
/// form of request target.
pub enum RequestTarget {
    AbsolutePath(String),
    Other,
}

/// What the token server answers a request.
pub enum TokenReply {
    /// The landing page.
    Index,
    /// The token arrived; the page can be closed.
    TokenReceived(String),
    /// Nothing here.
    NotFound,
}

/// The name/value pairs of the query of `url` (percent-decoded, in order),
/// as the url crate parses them; `None` where the url crate does not accept
/// `url` as a URL.
pub uninterp spec fn url_query_pairs(url: Seq<char>) -> Option<Seq<(Seq<char>, Seq<char>)>>;

/// Calls `url::Url::parse` on `url` and collects `Url::query_pairs` of the
/// result.
///
/// Trusted: `None` exactly where the url crate refuses `url`; otherwise the
/// decoded query pairs in order (named, not stated).
#[verifier::external_body]
fn parse_query_pairs(url: &str) -> (pairs: Option<Vec<(String, String)>>)
    ensures
        match pairs {
            Some(p) => url_query_pairs(url@) == Some(p.deep_view()),
            None => url_query_pairs(url@) is None,
        },
{
    match url::Url::parse(url) {
        Ok(u) => Some(u.query_pairs().into_owned().collect()),
        Err(_) => None,
    }
}

/// The value of the first pair named `name`, if there is one.
pub open spec fn first_value_of(pairs: Seq<(Seq<char>, Seq<char>)>, name: Seq<char>) -> Option<
    Seq<char>,
>
    decreases pairs.len(),
{
    if pairs.len() == 0 {
        None
    } else if pairs[0].0 == name {
        Some(pairs[0].1)
    } else {
        first_value_of(pairs.drop_first(), name)
    }
}

/// The value of the first pair named `name` is that pair's value, whole:
/// where `pairs[j]` is named `name` and no earlier pair is, the value found
/// is `pairs[j].1`, character for character.
pub proof fn law_first_value_is_whole(
    pairs: Seq<(Seq<char>, Seq<char>)>,
    name: Seq<char>,
    j: int,
)
    requires
        0 <= j < pairs.len(),
        pairs[j].0 == name,
        forall|i: int| 0 <= i < j ==> (#[trigger] pairs[i]).0 != name,
    ensures
        first_value_of(pairs, name) == Some(pairs[j].1),
    decreases j,
{
    if j > 0 {
        let rest = pairs.drop_first();
        assert forall|i: int| 0 <= i < j - 1 implies (#[trigger] rest[i]).0 != name by {
            assert(rest[i] == pairs[i + 1]);
        }
        assert(rest[j - 1] == pairs[j]);
        assert(pairs[0].0 != name);
        law_first_value_is_whole(rest, name, j - 1);
    }
}

/// Where no pair is named `name`, no value is found.
pub proof fn law_no_value_without_name(pairs: Seq<(Seq<char>, Seq<char>)>, name: Seq<char>)
    requires
        forall|i: int| 0 <= i < pairs.len() ==> (#[trigger] pairs[i]).0 != name,
    ensures
        first_value_of(pairs, name) is None,
    decreases pairs.len(),
{
    if pairs.len() > 0 {
        let rest = pairs.drop_first();
        assert forall|i: int| 0 <= i < rest.len() implies (#[trigger] rest[i]).0 != name by {
            assert(rest[i] == pairs[i + 1]);
        }
        assert(pairs[0].0 != name);
        law_no_value_without_name(rest, name);
    }
}

/// The token taken from a request is the value, whole, of the first query
/// pair named `access_token`.
pub proof fn law_token_is_first_access_token_whole(
    path: String,
    reply: Option<TokenReply>,
    pairs: Seq<(Seq<char>, Seq<char>)>,
    j: int,
)
    requires
        answers(RequestTarget::AbsolutePath(path), reply),
        path@ != "/"@,
        url_query_pairs(SERVER_ORIGIN@ + path@) == Some(pairs),
        0 <= j < pairs.len(),
        pairs[j].0 == "access_token"@,
        forall|i: int| 0 <= i < j ==> (#[trigger] pairs[i]).0 != "access_token"@,
    ensures
        reply matches Some(TokenReply::TokenReceived(t)) && t@ == pairs[j].1,
{
    assert(TOKEN_PARAMETER@ == "access_token"@);
    law_first_value_is_whole(pairs, TOKEN_PARAMETER@, j);
}

/// The value of the first pair named `access_token`.
pub fn find_access_token(pairs: &Vec<(String, String)>) -> (token: Option<String>)
    ensures
        match token {
            Some(t) => first_value_of(pairs.deep_view(), TOKEN_PARAMETER@) == Some(t@),
            None => first_value_of(pairs.deep_view(), TOKEN_PARAMETER@) is None,
        },
{
    let name = String::from_str(TOKEN_PARAMETER);
    let n = pairs.len();
    let mut i: usize = 0;
    assert(pairs.deep_view().skip(0) =~= pairs.deep_view());
    while i < n
        invariant
            n == pairs.len(),
            i <= n,
            name@ == TOKEN_PARAMETER@,
            first_value_of(pairs.deep_view(), TOKEN_PARAMETER@) == first_value_of(
                pairs.deep_view().skip(i as int),
                TOKEN_PARAMETER@,
            ),
        decreases n - i,
    {
        let ghost rest = pairs.deep_view().skip(i as int);
        assert(rest[0] == pairs.deep_view()[i as int]);
        assert(rest.drop_first() =~= pairs.deep_view().skip(i + 1));
        if pairs[i].0 == name {
            return Some(pairs[i].1.clone());
        }
        i = i + 1;
    }
    None
}

/// Whether `reply` is what the token server answers a request for `target`:
/// the landing page for the path `/`; for another path, the token if the
/// query holds an `access_token` pair (the first one), else "not found";
/// "not found" for any other form of target. `None` stands for no answer,
/// where the URL of the request cannot be read.
pub open spec fn answers(target: RequestTarget, reply: Option<TokenReply>) -> bool {
    match target {
        RequestTarget::AbsolutePath(path) => if path@ == "/"@ {
            reply matches Some(TokenReply::Index)
        } else {
            match url_query_pairs(SERVER_ORIGIN@ + path@) {
                None => reply is None,
                Some(pairs) => match first_value_of(pairs, TOKEN_PARAMETER@) {
                    Some(t) => reply matches Some(TokenReply::TokenReceived(s)) && s@ == t,
                    None => reply matches Some(TokenReply::NotFound),
                },
            }
        },
        RequestTarget::Other => reply matches Some(TokenReply::NotFound),
    }
}

/// Decides the answer to a request for `target`.
pub fn route_request(target: &RequestTarget) -> (reply: Option<TokenReply>)
    ensures
        answers(*target, reply),
{
    match target {
        RequestTarget::AbsolutePath(path) => {
            if *path == String::from_str("/") {
                Some(TokenReply::Index)
            } else {
                let mut url = String::from_str(SERVER_ORIGIN);
                url.append(path.as_str());
                match parse_query_pairs(url.as_str()) {
                    None => None,
                    Some(pairs) => match find_access_token(&pairs) {
                        Some(token) => Some(TokenReply::TokenReceived(token)),
                        None => Some(TokenReply::NotFound),
                    },
                }
            }
        },
        RequestTarget::Other => Some(TokenReply::NotFound),
    }
}

/// The HTTP status code of an answer: 200, or 404 for "not found".
pub open spec fn reply_status(reply: TokenReply) -> u16 {
    if reply is NotFound {
        404u16
    } else {
        200u16
    }
}

/// The body of an answer: the landing page (running `script`), the message
/// that the page can be closed, or nothing.
pub open spec fn reply_body(reply: TokenReply, script: Seq<char>) -> Seq<char> {
    match reply {
        TokenReply::Index => index_page_text(script),
        TokenReply::TokenReceived(_) => TOKEN_RECEIVED_MESSAGE@,
        TokenReply::NotFound => Seq::<char>::empty(),
    }
}

impl TokenReply {
    /// The HTTP status code of the answer: 200, or 404 for "not found".
    pub fn status_code(&self) -> (code: u16)
        ensures
            code == reply_status(*self),
    {
        match self {
            TokenReply::NotFound => 404,
            _ => 200,
        }
    }

    /// The body of the answer: the landing page (running `script`), the
    /// message that the page can be closed, or nothing.
    pub fn body(&self, script: &str) -> (b: String)
        ensures
            b@ == reply_body(*self, script@),
    {
        match self {
            TokenReply::Index => index_page(script),
            TokenReply::TokenReceived(_) => String::from_str(TOKEN_RECEIVED_MESSAGE),
            TokenReply::NotFound => String::new(),
        }
    }
}

/// Whether a request is for the path `/` exactly.
pub open spec fn is_root(target: RequestTarget) -> bool {
    target is AbsolutePath && target->AbsolutePath_0@ == "/"@
}

/// The token server hands on a token only from a request whose query holds
/// an `access_token` pair, and then the first such pair's value. Every other
/// request it answers (where it can read the request's URL) with the landing
/// page, status 200, for the path `/` exactly, and with status 404 and an
/// empty body otherwise.
pub proof fn law_token_only_from_access_token(
    target: RequestTarget,
    reply: Option<TokenReply>,
    script: Seq<char>,
)
    requires
        answers(target, reply),
    ensures
        reply matches Some(TokenReply::TokenReceived(t)) ==> target matches RequestTarget::AbsolutePath(
            p,
        ) && url_query_pairs(SERVER_ORIGIN@ + p@) matches Some(pairs) && first_value_of(
            pairs,
            TOKEN_PARAMETER@,
        ) == Some(t@),
        reply matches Some(TokenReply::Index) <==> is_root(target),
        reply is Some && !(reply->Some_0 is TokenReceived) ==> if is_root(target) {
            &&& reply == Some(TokenReply::Index)
            &&& reply_status(TokenReply::Index) == 200
            &&& reply_body(TokenReply::Index, script) == index_page_text(script)
        } else {
            &&& reply == Some(TokenReply::NotFound)
            &&& reply_status(TokenReply::NotFound) == 404
            &&& reply_body(TokenReply::NotFound, script) == Seq::<char>::empty()
        },
{
}

/// The authorization URL sends the user's browser back to this server: its
/// redirect URI is the origin under which the server reads requests.
pub proof fn law_redirect_reaches_token_server()
    ensures
        crate::twitch::REDIRECT_URI@ == SERVER_ORIGIN@,
{
}

} // verus!
