//! Setting the channel when the switcher is shown.
//!
//! When the switcher is activated while OBS streams, it obtains an OAuth
//! token, asks the Twitch API for the name of the user's channel, and sends
//! the channel its new status and game. The requests themselves are made by
//! the host: each step here takes what the last request gave and says what to
//! do next.

use vstd::prelude::*;

use super::{active_stream_key, err_string, error_text, current_stream_key, DashboardSwitcher};
use crate::obs::sys::obs_output_t;
use crate::twitch::channel::{update_json_text, ChannelInfo, ChannelUpdate};
use crate::twitch::{twitch_header_list, twitch_headers};

verus! {

/// The API endpoint that describes the authenticated user's channel.
pub const CHANNEL_ENDPOINT: &'static str = "https://api.twitch.tv/kraken/channel";

/// The API endpoint of a channel, before the channel's name.
pub const CHANNELS_ENDPOINT: &'static str = "https://api.twitch.tv/kraken/channels/";

/// The prefix of an error in making a call to the API.
pub const CALL_ERROR: &'static str = "Error calling the twitch API";

/// The prefix of an error in reading the body of an answer of the API.
pub const READ_ERROR: &'static str = "Error reading response body from twitch API";

/// The prefix of an error in decoding the JSON of an answer of the API.
pub const DECODE_ERROR: &'static str = "Error deserializing JSON from twitch API";

/// The prefix of an error status in an answer of the API.
pub const STATUS_ERROR: &'static str = "Got bad HTTP status from twitch API";

/// The HTTP status code of success.
pub const STATUS_OK: u16 = 200;

/// An HTTP method.
#[derive(Clone, Copy, Debug, PartialEq, Eq, Structural)]
pub enum HttpMethod {
    Get,
    Put,
}

/// A request for the host to send.
pub struct HttpRequest {
    pub method: HttpMethod,
    pub url: String,
    pub headers: Vec<(String, String)>,
    pub body: Option<String>,
}

/// Where an activation stands.
pub enum Activation {
    /// Waiting for the OAuth token; `body` is the update to send.
    AwaitingToken { client_id: String, body: String },
    /// Waiting for the description of the user's channel.
    AwaitingChannel { client_id: String, token: String, body: String },
    /// Waiting for the answer to the update.
    AwaitingUpdate,
    /// Done: nothing more is sent.
    Finished,
}

/// How asking for the user's channel failed, with the displayed text of the
/// error.
pub enum ChannelFetchError {
    /// The request could not be made.
    Send(String),
    /// The body of the answer could not be read.
    Read(String),
    /// The body of the answer is not a channel description.
    Decode(String),
}

/// The status line of an answer: the code, and its displayed text.
pub struct StatusLine {
    pub code: u16,
    pub text: String,
}

/// What the host reports back.
pub enum ActivationEvent {
    /// The OAuth token.
    TokenObtained(String),
    /// The outcome of asking for the user's channel.
    ChannelFetched(Result<ChannelInfo, ChannelFetchError>),
    /// The outcome of sending the update: the status of the answer, or the
    /// displayed text of the error in sending it.
    UpdateSent(Result<StatusLine, String>),
}

/// What the host is to do next.
pub enum ActivationAction {
    /// OBS is not streaming: nothing is sent.
    NotStreaming,
    /// OBS streams with `stream_key`: obtain an OAuth token.
    Authenticate { stream_key: String },
    /// Send this request.
    Send(HttpRequest),
    /// The activation is over, with this outcome.
    Report(Result<(), String>),
    /// The event does not belong to this stage; nothing changes.
    Ignore,
}

/// The value of the `Authorization` header for `token`.
pub open spec fn authorization_text(token: Seq<char>) -> Seq<char> {
    "OAuth "@ + token
}

/// Whether `r` asks the API for the user's channel.
pub open spec fn is_channel_request(r: HttpRequest, token: Seq<char>, client_id: Seq<char>) -> bool {
    &&& r.method == HttpMethod::Get
    &&& r.url@ == CHANNEL_ENDPOINT@
    &&& r.headers.deep_view() == seq![("Authorization"@, authorization_text(token))]
        + twitch_header_list(client_id)
    &&& r.body is None
}

/// Whether `r` sends the update `body` to the channel named `name`.
pub open spec fn is_update_request(
    r: HttpRequest,
    name: Seq<char>,
    token: Seq<char>,
    client_id: Seq<char>,
    body: Seq<char>,
) -> bool {
    &&& r.method == HttpMethod::Put
    &&& r.url@ == CHANNELS_ENDPOINT@ + name
    &&& r.headers.deep_view() == seq![
        ("Authorization"@, authorization_text(token)),
        ("Content-Type"@, "application/json"@),
    ] + twitch_header_list(client_id)
    &&& r.body matches Some(b) && b@ == body
}

/// The message of a failure to learn the user's channel.
pub open spec fn fetch_error_text(e: ChannelFetchError) -> Seq<char> {
    match e {
        ChannelFetchError::Send(t) => error_text(Some(CALL_ERROR@), t@),
        ChannelFetchError::Read(t) => error_text(Some(READ_ERROR@), t@),
        ChannelFetchError::Decode(t) => error_text(Some(DECODE_ERROR@), t@),
    }
}

/// Whether `outcome` reports the answer `sent` to the update: success for a
/// status of 200, else an error that gives the status or the sending error.
pub open spec fn update_outcome(sent: Result<StatusLine, String>, outcome: Result<(), String>) -> bool {
    match sent {
        Ok(status) => if status.code == STATUS_OK {
            outcome is Ok
        } else {
            outcome matches Err(m) && m@ == error_text(Some(STATUS_ERROR@), status.text@)
        },
        Err(e) => outcome matches Err(m) && m@ == error_text(Some(CALL_ERROR@), e@),
    }
}

/// Whether an activation that stands at `state` and gets `event` moves to
/// `next` and asks for `action`.
pub open spec fn steps_to(
    state: Activation,
    event: ActivationEvent,
    next: Activation,
    action: ActivationAction,
) -> bool {
    match (state, event) {
        (
            Activation::AwaitingToken { client_id, body },
            ActivationEvent::TokenObtained(token),
        ) => {
            &&& next matches Activation::AwaitingChannel { client_id: c, token: t, body: b }
                && c@ == client_id@ && t@ == token@ && b@ == body@
            &&& action matches ActivationAction::Send(r) && is_channel_request(r, token@, client_id@)
        },
        (
            Activation::AwaitingChannel { client_id, token, body },
            ActivationEvent::ChannelFetched(fetched),
        ) => match fetched {
            Ok(info) => {
                &&& next is AwaitingUpdate
                &&& action matches ActivationAction::Send(r) && is_update_request(
                    r,
                    info.name@,
                    token@,
                    client_id@,
                    body@,
                )
            },
            Err(e) => {
                &&& next is Finished
                &&& action matches ActivationAction::Report(Err(m)) && m@ == fetch_error_text(e)
            },
        },
        (Activation::AwaitingUpdate, ActivationEvent::UpdateSent(sent)) => {
            &&& next is Finished
            &&& action matches ActivationAction::Report(outcome) && update_outcome(sent, outcome)
        },
        _ => next == state && action is Ignore,
    }
}

/// Whether activating `switcher` while OBS has `outputs` starts at `state`
/// with `action`: where OBS streams, by asking for a token, holding the
/// update of the channel to the switcher's status and game; where it does
/// not, by finishing at once.
pub open spec fn starts(
    switcher: DashboardSwitcher,
    outputs: Seq<obs_output_t>,
    client_id: Seq<char>,
    state: Activation,
    action: ActivationAction,
) -> bool {
    match active_stream_key(outputs) {
        None => state is Finished && action is NotStreaming,
        Some(key) => {
            &&& state matches Activation::AwaitingToken { client_id: c, body } && c@ == client_id
                && body@ == update_json_text(Some(switcher.status_of()), Some(switcher.game_of()))
            &&& action matches ActivationAction::Authenticate { stream_key } && stream_key@ == key
        },
    }
}

/// A request of `method` to `url` with the authorization for `token`, then
/// `extra` headers, then the Twitch headers.
fn api_request(
    method: HttpMethod,
    url: String,
    token: &String,
    extra: Option<(String, String)>,
    client_id: &String,
    body: Option<String>,
) -> (r: HttpRequest)
    ensures
        r.method == method,
        r.url == url,
        r.body == body,
        r.headers.deep_view() == seq![("Authorization"@, authorization_text(token@))] + match extra {
            Some(h) => seq![(h.0@, h.1@)],
            None => Seq::empty(),
        } + twitch_header_list(client_id@),
{
    let mut headers: Vec<(String, String)> = Vec::new();
    let mut auth = String::from_str("OAuth ");
    auth.append(token.as_str());
    headers.push((String::from_str("Authorization"), auth));
    let ghost first = headers.deep_view();
    match extra {
        Some(h) => headers.push(h),
        None => {},
    }
    let ghost front = headers.deep_view();
    let mut twitch = twitch_headers(client_id.as_str());
    headers.append(&mut twitch);
    proof {
        assert(headers.deep_view() =~= front + twitch_header_list(client_id@));
    }
    HttpRequest { method, url, headers, body }
}

impl Activation {
    /// Takes the next event.
    pub fn step(self, event: ActivationEvent) -> (r: (Activation, ActivationAction))
        ensures
            steps_to(self, event, r.0, r.1),
    {
        match (self, event) {
            (
                Activation::AwaitingToken { client_id, body },
                ActivationEvent::TokenObtained(token),
            ) => {
                let request = api_request(
                    HttpMethod::Get,
                    String::from_str(CHANNEL_ENDPOINT),
                    &token,
                    None,
                    &client_id,
                    None,
                );
                proof {
                    assert(request.headers.deep_view() =~= seq![
                        ("Authorization"@, authorization_text(token@)),
                    ] + twitch_header_list(client_id@));
                }
                (
                    Activation::AwaitingChannel { client_id, token, body },
                    ActivationAction::Send(request),
                )
            },
            (
                Activation::AwaitingChannel { client_id, token, body },
                ActivationEvent::ChannelFetched(fetched),
            ) => match fetched {
                Ok(info) => {
                    let mut url = String::from_str(CHANNELS_ENDPOINT);
                    url.append(info.name.as_str());
                    let content_type = (
                        String::from_str("Content-Type"),
                        String::from_str("application/json"),
                    );
                    let request = api_request(
                        HttpMethod::Put,
                        url,
                        &token,
                        Some(content_type),
                        &client_id,
                        Some(body),
                    );
                    proof {
                        assert(request.headers.deep_view() =~= seq![
                            ("Authorization"@, authorization_text(token@)),
                            ("Content-Type"@, "application/json"@),
                        ] + twitch_header_list(client_id@));
                    }
                    (Activation::AwaitingUpdate, ActivationAction::Send(request))
                },
                Err(e) => {
                    let message = match &e {
                        ChannelFetchError::Send(t) => err_string(Some(CALL_ERROR), t.as_str()),
                        ChannelFetchError::Read(t) => err_string(Some(READ_ERROR), t.as_str()),
                        ChannelFetchError::Decode(t) => err_string(Some(DECODE_ERROR), t.as_str()),
                    };
                    (Activation::Finished, ActivationAction::Report(Err(message)))
                },
            },
            (Activation::AwaitingUpdate, ActivationEvent::UpdateSent(sent)) => {
                let outcome = match &sent {
                    Ok(status) => if status.code == STATUS_OK {
                        Ok(())
                    } else {
                        Err(err_string(Some(STATUS_ERROR), status.text.as_str()))
                    },
                    Err(e) => Err(err_string(Some(CALL_ERROR), e.as_str())),
                };
                (Activation::Finished, ActivationAction::Report(outcome))
            },
            (state, _) => (state, ActivationAction::Ignore),
        }
    }
}

impl DashboardSwitcher {
    /// Called when this source is activated for display on the main screen,
    /// with the outputs of OBS: if OBS streams, the activation starts by
    /// asking for an OAuth token and holds the update to send (this
    /// switcher's status and game); otherwise nothing is sent.
    pub fn activate(&self, outputs: &Vec<obs_output_t>, client_id: &str) -> (r: (
        Activation,
        ActivationAction,
    ))
        ensures
            starts(*self, outputs@, client_id@, r.0, r.1),
    {
        match current_stream_key(outputs) {
            Some(stream_key) => {
                let update = ChannelUpdate::from(self.channel_info());
                let body = update.to_json();
                (
                    Activation::AwaitingToken { client_id: client_id.to_owned(), body },
                    ActivationAction::Authenticate { stream_key },
                )
            },
            None => (Activation::Finished, ActivationAction::NotStreaming),
        }
    }
}

/// An activation while OBS streams, in which the token arrives and the API
/// names the user's channel, sends the update: the token authorizes both
/// requests, the first asks for the channel, the second puts the switcher's
/// status and game to the channel that the API named, and the activation
/// then ends, successfully exactly where the answer's status is 200.
pub proof fn law_streaming_activation_updates_channel(
    switcher: DashboardSwitcher,
    outputs: Seq<obs_output_t>,
    client_id: Seq<char>,
    s0: Activation,
    a0: ActivationAction,
    token: String,
    s1: Activation,
    a1: ActivationAction,
    info: ChannelInfo,
    s2: Activation,
    a2: ActivationAction,
    sent: Result<StatusLine, String>,
    s3: Activation,
    a3: ActivationAction,
)
    requires
        active_stream_key(outputs) is Some,
        starts(switcher, outputs, client_id, s0, a0),
        steps_to(s0, ActivationEvent::TokenObtained(token), s1, a1),
        steps_to(s1, ActivationEvent::ChannelFetched(Ok(info)), s2, a2),
        steps_to(s2, ActivationEvent::UpdateSent(sent), s3, a3),
    ensures
        a0 matches ActivationAction::Authenticate { stream_key } && Some(stream_key@)
            == active_stream_key(outputs),
        a1 matches ActivationAction::Send(r) && is_channel_request(r, token@, client_id),
        a2 matches ActivationAction::Send(r) && is_update_request(
            r,
            info.name@,
            token@,
            client_id,
            update_json_text(Some(switcher.status_of()), Some(switcher.game_of())),
        ),
        s3 is Finished,
        a3 matches ActivationAction::Report(outcome) && update_outcome(sent, outcome),
        a3 matches ActivationAction::Report(outcome) && (outcome is Ok <==> (sent matches Ok(
            status,
        ) && status.code == STATUS_OK)),
{
}

/// An activation while OBS does not stream sends nothing: it is finished from
/// the start, and every later event is ignored.
pub proof fn law_no_stream_sends_nothing(
    switcher: DashboardSwitcher,
    outputs: Seq<obs_output_t>,
    client_id: Seq<char>,
    s0: Activation,
    a0: ActivationAction,
    event: ActivationEvent,
    s1: Activation,
    a1: ActivationAction,
)
    requires
        active_stream_key(outputs) is None,
        starts(switcher, outputs, client_id, s0, a0),
        steps_to(s0, event, s1, a1),
    ensures
        a0 is NotStreaming,
        s1 is Finished,
        a1 is Ignore,
{
}

/// A failure to learn the user's channel ends the activation with that error
/// reported, behind the prefix of its kind; no update is sent, then or later.
pub proof fn law_failed_channel_fetch_ends_activation(
    s0: Activation,
    error: ChannelFetchError,
    s1: Activation,
    a1: ActivationAction,
    event: ActivationEvent,
    s2: Activation,
    a2: ActivationAction,
)
    requires
        s0 is AwaitingChannel,
        steps_to(s0, ActivationEvent::ChannelFetched(Err(error)), s1, a1),
        steps_to(s1, event, s2, a2),
    ensures
        s1 is Finished,
        a1 matches ActivationAction::Report(Err(m)) && m@ == fetch_error_text(error),
        s2 is Finished,
        a2 is Ignore,
{
}

/// Every request of an activation is authorized by the whole token: after
/// `TokenObtained(t)`, the request for the channel carries first the header
/// `Authorization` whose value is `OAuth ` followed by every character of
/// `t`, and the activation keeps `t` whole for the update.
pub proof fn law_channel_request_carries_whole_token(
    state: Activation,
    token: String,
    next: Activation,
    action: ActivationAction,
)
    requires
        state is AwaitingToken,
        steps_to(state, ActivationEvent::TokenObtained(token), next, action),
    ensures
        action matches ActivationAction::Send(r) && r.headers@.len() >= 1 && r.headers@[0].0@
            == "Authorization"@ && r.headers@[0].1@ == "OAuth "@ + token@,
        action matches ActivationAction::Send(r) && r.headers@[0].1@.len() == token@.len() + 6
            && r.headers@[0].1@.subrange(6, r.headers@[0].1@.len() as int) == token@,
        next matches Activation::AwaitingChannel { token: kept, .. } && kept@ == token@,
{
    reveal_strlit("OAuth ");
    let r = action->Send_0;
    assert(is_channel_request(r, token@, state->AwaitingToken_client_id@));
    assert(r.headers.deep_view().len() == 3);
    assert(r.headers.deep_view()[0] == r.headers@[0].deep_view());
    assert(r.headers.deep_view()[0] == ("Authorization"@, authorization_text(token@)));
    assert(("OAuth "@ + token@).subrange(6, token@.len() + 6 as int) =~= token@);
}

/// The update is authorized by the whole token the activation holds: its
/// request carries first the header `Authorization` whose value is `OAuth `
/// followed by every character of the token.
pub proof fn law_update_request_carries_whole_token(
    state: Activation,
    info: ChannelInfo,
    next: Activation,
    action: ActivationAction,
)
    requires
        state is AwaitingChannel,
        steps_to(state, ActivationEvent::ChannelFetched(Ok(info)), next, action),
    ensures
        action matches ActivationAction::Send(r) && r.headers@.len() >= 1 && r.headers@[0].0@
            == "Authorization"@ && r.headers@[0].1@ == "OAuth "@ + state->AwaitingChannel_token@,
        action matches ActivationAction::Send(r) && r.url@ == CHANNELS_ENDPOINT@ + info.name@,
{
    let r = action->Send_0;
    assert(r.headers.deep_view().len() == 4);
    assert(r.headers.deep_view()[0] == r.headers@[0].deep_view());
}

} // verus!
