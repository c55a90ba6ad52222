use obs_twitch_dashboard::obs::data::Data;
use obs_twitch_dashboard::obs::source::Source;
use obs_twitch_dashboard::obs::sys::{
    obs_data_t, obs_output_t, obs_service_t, obs_source_t, obs_source_type, obs_text_type,
};
use obs_twitch_dashboard::switcher::activation::{
    Activation, ActivationAction, ActivationEvent, ChannelFetchError, HttpMethod, HttpRequest,
    StatusLine,
};
use obs_twitch_dashboard::switcher::token_server::{
    find_access_token, index_page, route_request, RequestTarget, TokenReply,
};
use obs_twitch_dashboard::switcher::{current_stream_key, err_string, DashboardSwitcher};
use obs_twitch_dashboard::twitch::channel::{Channel, ChannelInfo, ChannelUpdate};
use obs_twitch_dashboard::twitch::{authorize_url, is_twitch_ingest_url, twitch_headers};

const CLIENT: &str = "abc123client";

#[test]
fn authorize_url_passes_validation() {
    let auth_url = authorize_url(CLIENT, "channel_read channel_editor");
    url::Url::parse(auth_url.as_str()).unwrap();
}

#[test]
fn authorize_url_text_and_query() {
    let auth_url = authorize_url(CLIENT, "channel_read channel_editor");
    assert_eq!(
        auth_url,
        "https://api.twitch.tv/kraken/oauth2/authorize?client_id=abc123client\
         &response_type=token&redirect_uri=http%3A%2F%2Flocalhost%3A7684\
         &scope=channel_read+channel_editor"
    );
    let parsed = url::Url::parse(&auth_url).unwrap();
    let pairs: Vec<(String, String)> = parsed.query_pairs().into_owned().collect();
    assert_eq!(pairs[0], ("client_id".to_string(), CLIENT.to_string()));
    assert_eq!(pairs[1], ("response_type".to_string(), "token".to_string()));
    assert_eq!(pairs[2], ("redirect_uri".to_string(), "http://localhost:7684".to_string()));
    assert_eq!(pairs[3], ("scope".to_string(), "channel_read channel_editor".to_string()));
}

#[test]
fn twitch_headers_in_order() {
    assert_eq!(
        twitch_headers("id"),
        vec![
            ("Accept".to_string(), "application/vnd.twitchtv.v3+json".to_string()),
            ("Client-ID".to_string(), "id".to_string()),
        ]
    );
}

#[test]
fn err_string_with_and_without_prefix() {
    assert_eq!(err_string(Some("Error calling the twitch API"), "timeout"), "Error calling the twitch API: timeout");
    assert_eq!(err_string(None, "timeout"), "timeout");
    assert_eq!(err_string(Some(""), ""), ": ");
}

#[test]
fn channel_update_body_is_the_json_of_the_update() {
    let update = ChannelUpdate::from(Channel {
        status: Some("Speedrun \"any%\"".to_string()),
        game: None,
    });
    let body = update.to_json();
    assert_eq!(body, "{\"channel\":{\"status\":\"Speedrun \\\"any%\\\"\",\"game\":null}}");
    let value: serde_json::Value = serde_json::from_str(&body).unwrap();
    assert_eq!(value["channel"]["status"], "Speedrun \"any%\"");
    assert!(value["channel"]["game"].is_null());
    let update = ChannelUpdate::new(Channel {
        status: Some("a\\b\tc\n\u{1}\u{1f}\u{8}\u{c}\r/\u{7f}é".to_string()),
        game: Some(String::new()),
    });
    assert_eq!(
        update.to_json(),
        "{\"channel\":{\"status\":\"a\\\\b\\tc\\n\\u0001\\u001f\\b\\f\\r/\u{7f}é\",\"game\":\"\"}}"
    );
    let update = ChannelUpdate::new(Channel { status: None, game: Some("Chess".to_string()) });
    assert_eq!(update.to_json(), "{\"channel\":{\"status\":null,\"game\":\"Chess\"}}");
}

fn settings(status: Option<&str>, game: Option<&str>) -> obs_data_t {
    let mut d = obs_data_t::new();
    DashboardSwitcher::get_defaults(&mut d);
    if let Some(s) = status {
        d.set_string("status", s);
    }
    if let Some(g) = game {
        d.set_string("game", g);
    }
    d
}

#[test]
fn switcher_reads_its_settings() {
    let mut d = settings(Some("Live now"), Some("Chess"));
    let mut source = obs_source_t {};
    let mut sw = DashboardSwitcher::create(&mut d, &mut source);
    let c = sw.channel_info();
    assert_eq!(c.status.as_deref(), Some("Live now"));
    assert_eq!(c.game.as_deref(), Some("Chess"));
    assert_eq!(sw.get_width(), 0);
    assert_eq!(sw.get_height(), 0);
    assert_eq!(sw.get_name(), "Twitch Dashboard Switcher");
    assert_eq!(DashboardSwitcher::id(), "obs-twitch-dashboard-switcher");
    assert_eq!(DashboardSwitcher::typ(), obs_source_type::INPUT);
    assert_eq!(DashboardSwitcher::output_flags(), 0);
}

#[test]
fn switcher_defaults_are_empty() {
    let mut d = settings(None, None);
    assert_eq!(d.get_string("status"), "");
    assert_eq!(d.get_string("game"), "");
    let mut source = obs_source_t {};
    let sw = DashboardSwitcher::create(&mut d, &mut source);
    let c = sw.channel_info();
    assert_eq!(c.status.as_deref(), Some(""));
    assert_eq!(c.game.as_deref(), Some(""));
}

#[test]
fn switcher_update_takes_new_settings() {
    let mut sw = DashboardSwitcher::new("old", "Old game");
    sw.update(&settings(Some("new"), None));
    let c = sw.channel_info();
    assert_eq!(c.status.as_deref(), Some("new"));
    assert_eq!(c.game.as_deref(), Some(""));
}

#[test]
fn switcher_properties() {
    let sw = DashboardSwitcher::new("", "");
    let p = sw.get_properties();
    assert_eq!(p.properties.len(), 2);
    assert_eq!(p.properties[0].name, "status");
    assert_eq!(p.properties[0].description, "Channel Status");
    assert_eq!(p.properties[0].typ, obs_text_type::DEFAULT);
    assert_eq!(p.properties[1].name, "game");
    assert_eq!(p.properties[1].description, "Game");
    assert_eq!(p.flags, 1);
}

fn output(active: bool, key: Option<&str>) -> obs_output_t {
    obs_output_t {
        name: "out".to_string(),
        service: Some(obs_service_t {
            name: "twitch".to_string(),
            key: key.map(|k| k.to_string()),
            url: "rtmp://live.twitch.tv/app".to_string(),
        }),
        active,
    }
}

fn some_outputs() -> Vec<obs_output_t> {
    vec![
        output(false, Some("inactive")),
        obs_output_t { name: "rec".to_string(), service: None, active: true },
        output(true, None),
    ]
}

fn output_to(name: &str, url: &str, key: &str) -> obs_output_t {
    obs_output_t {
        name: "out".to_string(),
        service: Some(obs_service_t {
            name: name.to_string(),
            key: Some(key.to_string()),
            url: url.to_string(),
        }),
        active: true,
    }
}

#[test]
fn stream_key_only_of_a_twitch_stream() {
    let youtube = output_to("YouTube / YouTube Gaming", "rtmp://a.rtmp.youtube.com/live2", "yt-key");
    assert_eq!(current_stream_key(&vec![youtube]), None);
    let outputs = vec![
        output_to("YouTube / YouTube Gaming", "rtmp://a.rtmp.youtube.com/live2", "yt-key"),
        output_to("Twitch", "rtmp://live-fra.twitch.tv/app", "tw-key"),
    ];
    assert_eq!(current_stream_key(&outputs), Some("tw-key".to_string()));
    let contribute = output_to("Twitch", "rtmp://ingest.global-contribute.live-video.net/app", "c-key");
    assert_eq!(current_stream_key(&vec![contribute]), Some("c-key".to_string()));
    let lookalike = output_to("Other", "rtmp://nottwitch.tv/app", "x");
    assert_eq!(current_stream_key(&vec![lookalike]), None);
    let bare = output_to("Twitch", "rtmp://twitch.tv/app", "bare");
    assert_eq!(current_stream_key(&vec![bare]), Some("bare".to_string()));
    let unparsable = output_to("Twitch", "not a url", "k");
    assert_eq!(current_stream_key(&vec![unparsable]), None);
}

#[test]
fn twitch_ingest_urls() {
    assert!(is_twitch_ingest_url("rtmp://live.twitch.tv/app"));
    assert!(is_twitch_ingest_url("rtmps://ingest.contribute.live-video.net/app"));
    assert!(!is_twitch_ingest_url("rtmp://live.twitch.tv.evil.example/app"));
    assert!(!is_twitch_ingest_url("rtmp://a.rtmp.youtube.com/live2"));
    assert!(!is_twitch_ingest_url(""));
}

#[test]
fn stream_key_of_first_active_output_with_key() {
    let mut outputs = some_outputs();
    assert_eq!(current_stream_key(&outputs), None);
    outputs.push(output(true, Some("live_1")));
    outputs.push(output(true, Some("live_2")));
    assert_eq!(current_stream_key(&outputs), Some("live_1".to_string()));
    assert_eq!(current_stream_key(&Vec::new()), None);
}

fn sent(action: ActivationAction) -> HttpRequest {
    match action {
        ActivationAction::Send(r) => r,
        _ => panic!("expected a request"),
    }
}

fn pairs(list: &[(&str, &str)]) -> Vec<(String, String)> {
    list.iter().map(|(k, v)| (k.to_string(), v.to_string())).collect()
}

#[test]
fn activation_not_streaming_sends_nothing() {
    let sw = DashboardSwitcher::new("Title", "Game");
    let (state, action) = sw.activate(&vec![output(false, Some("k"))], CLIENT);
    assert!(matches!(action, ActivationAction::NotStreaming));
    assert!(matches!(state, Activation::Finished));
    let (state, action) = state.step(ActivationEvent::TokenObtained("t".to_string()));
    assert!(matches!(action, ActivationAction::Ignore));
    assert!(matches!(state, Activation::Finished));
}

#[test]
fn activation_full_run() {
    let sw = DashboardSwitcher::new("Title", "Game");
    let (state, action) = sw.activate(&vec![output(true, Some("live_9"))], CLIENT);
    match action {
        ActivationAction::Authenticate { stream_key } => assert_eq!(stream_key, "live_9"),
        _ => panic!("expected authentication"),
    }
    let (state, action) = state.step(ActivationEvent::TokenObtained("tok".to_string()));
    let get = sent(action);
    assert_eq!(get.method, HttpMethod::Get);
    assert_eq!(get.url, "https://api.twitch.tv/kraken/channel");
    assert_eq!(
        get.headers,
        pairs(&[
            ("Authorization", "OAuth tok"),
            ("Accept", "application/vnd.twitchtv.v3+json"),
            ("Client-ID", CLIENT),
        ])
    );
    assert!(get.body.is_none());
    let (state, action) =
        state.step(ActivationEvent::ChannelFetched(Ok(ChannelInfo { name: "streamer".to_string() })));
    let put = sent(action);
    assert_eq!(put.method, HttpMethod::Put);
    assert_eq!(put.url, "https://api.twitch.tv/kraken/channels/streamer");
    assert_eq!(
        put.headers,
        pairs(&[
            ("Authorization", "OAuth tok"),
            ("Content-Type", "application/json"),
            ("Accept", "application/vnd.twitchtv.v3+json"),
            ("Client-ID", CLIENT),
        ])
    );
    assert_eq!(put.body.as_deref(), Some("{\"channel\":{\"status\":\"Title\",\"game\":\"Game\"}}"));
    let (state, action) = state.step(ActivationEvent::UpdateSent(Ok(StatusLine {
        code: 200,
        text: "200 OK".to_string(),
    })));
    assert!(matches!(action, ActivationAction::Report(Ok(()))));
    assert!(matches!(state, Activation::Finished));
}

#[test]
fn activation_errors_are_reported_with_prefix() {
    let bad_status = Activation::AwaitingUpdate.step(ActivationEvent::UpdateSent(Ok(StatusLine {
        code: 401,
        text: "401 Unauthorized".to_string(),
    })));
    match bad_status.1 {
        ActivationAction::Report(Err(m)) => {
            assert_eq!(m, "Got bad HTTP status from twitch API: 401 Unauthorized")
        }
        _ => panic!("expected an error"),
    }
    let send_failed =
        Activation::AwaitingUpdate.step(ActivationEvent::UpdateSent(Err("refused".to_string())));
    match send_failed.1 {
        ActivationAction::Report(Err(m)) => assert_eq!(m, "Error calling the twitch API: refused"),
        _ => panic!("expected an error"),
    }
    let waiting = || Activation::AwaitingChannel {
        client_id: CLIENT.to_string(),
        token: "t".to_string(),
        body: "{}".to_string(),
    };
    let cases = vec![
        (ChannelFetchError::Send("x".to_string()), "Error calling the twitch API: x"),
        (ChannelFetchError::Read("y".to_string()), "Error reading response body from twitch API: y"),
        (ChannelFetchError::Decode("z".to_string()), "Error deserializing JSON from twitch API: z"),
    ];
    for (error, expected) in cases {
        let (state, action) = waiting().step(ActivationEvent::ChannelFetched(Err(error)));
        assert!(matches!(state, Activation::Finished));
        match action {
            ActivationAction::Report(Err(m)) => assert_eq!(m, expected),
            _ => panic!("expected an error"),
        }
    }
}

#[test]
fn activation_ignores_events_of_other_stages() {
    let (state, action) = Activation::AwaitingUpdate.step(ActivationEvent::TokenObtained("t".to_string()));
    assert!(matches!(state, Activation::AwaitingUpdate));
    assert!(matches!(action, ActivationAction::Ignore));
}

#[test]
fn token_server_routes() {
    assert!(matches!(route_request(&RequestTarget::AbsolutePath("/".to_string())), Some(TokenReply::Index)));
    match route_request(&RequestTarget::AbsolutePath("/?access_token=abc%20d&scope=x".to_string())) {
        Some(TokenReply::TokenReceived(t)) => assert_eq!(t, "abc d"),
        _ => panic!("expected the token"),
    }
    match route_request(&RequestTarget::AbsolutePath(
        "/cb?scope=x&access_token=first&access_token=second".to_string(),
    )) {
        Some(TokenReply::TokenReceived(t)) => assert_eq!(t, "first"),
        _ => panic!("expected the token"),
    }
    assert!(matches!(
        route_request(&RequestTarget::AbsolutePath("/favicon.ico".to_string())),
        Some(TokenReply::NotFound)
    ));
    assert!(matches!(route_request(&RequestTarget::Other), Some(TokenReply::NotFound)));
}

#[test]
fn token_replies() {
    assert_eq!(TokenReply::Index.status_code(), 200);
    assert_eq!(TokenReply::Index.body("go()"), "<html><head><script>go()</script><body></body></html>");
    assert_eq!(TokenReply::TokenReceived("t".to_string()).status_code(), 200);
    assert_eq!(TokenReply::TokenReceived("t".to_string()).body(""), "You can close this page now.");
    assert_eq!(TokenReply::NotFound.status_code(), 404);
    assert_eq!(TokenReply::NotFound.body("x"), "");
    assert_eq!(index_page(""), "<html><head><script></script><body></body></html>");
}

#[test]
fn access_token_is_the_first_of_its_name() {
    assert_eq!(find_access_token(&pairs(&[("a", "1"), ("access_token", "T"), ("access_token", "U")])), Some("T".to_string()));
    assert_eq!(find_access_token(&pairs(&[("a", "1")])), None);
    assert_eq!(find_access_token(&Vec::new()), None);
}
