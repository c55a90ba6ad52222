//! The dashboard switcher: a source that, when it is shown, sets the title
//! and game of the Twitch channel that OBS is streaming to.

use vstd::prelude::*;

pub mod activation;
pub mod token_server;

use crate::obs::enum_outputs;
use crate::obs::properties::{self, DEFER_UPDATE};
use crate::obs::source::Source;
use crate::obs::sys::{
    obs_data_t, obs_output_t, obs_properties_t, obs_source_t, obs_source_type, obs_text_type,
};
use crate::obs::{Data, Output, Properties, Service};
use crate::twitch::channel::Channel;
use crate::twitch::{is_twitch_ingest, is_twitch_ingest_url};

verus! {

/// The id under which the source type is registered with OBS.
pub const SOURCE_ID: &'static str = "obs-twitch-dashboard-switcher";

/// The name of the source type, as OBS shows it.
pub const SOURCE_NAME: &'static str = "Twitch Dashboard Switcher";

/// The settings key of the channel status.
pub const KEY_STATUS: &'static str = "status";

/// The settings key of the game.
pub const KEY_GAME: &'static str = "game";

/// The source that sets the channel's status and game.
pub struct DashboardSwitcher {
    status: String,
    game: String,
}

/// Whether an output streams to Twitch with a stream key: it is running, and
/// it sends to a service whose server is a Twitch ingest server and on which
/// a key is set.
pub open spec fn streams_with_key(o: obs_output_t) -> bool {
    &&& o.active
    &&& o.service matches Some(s)
    &&& s.key is Some
    &&& is_twitch_ingest(s.url@)
}

/// The stream key of an output that streams with one.
pub open spec fn stream_key_of(o: obs_output_t) -> Seq<char>
    recommends
        streams_with_key(o),
{
    o.service->Some_0.key->Some_0@
}

/// The stream key of the currently active Twitch stream: that of the first
/// output (in the order OBS lists them) that streams to Twitch with a key.
pub open spec fn active_stream_key(outputs: Seq<obs_output_t>) -> Option<Seq<char>>
    decreases outputs.len(),
{
    if outputs.len() == 0 {
        None
    } else if streams_with_key(outputs[0]) {
        Some(stream_key_of(outputs[0]))
    } else {
        active_stream_key(outputs.drop_first())
    }
}

/// `active_stream_key` is the key of the first output that streams with a
/// key, and `None` where none does.
proof fn lemma_active_stream_key(outputs: Seq<obs_output_t>, j: Option<int>)
    requires
        match j {
            Some(j) => 0 <= j < outputs.len() && streams_with_key(outputs[j]) && forall|i: int|
                0 <= i < j ==> !streams_with_key(#[trigger] outputs[i]),
            None => forall|i: int| 0 <= i < outputs.len() ==> !streams_with_key(#[trigger] outputs[i]),
        },
    ensures
        active_stream_key(outputs) == match j {
            Some(j) => Some(stream_key_of(outputs[j])),
            None => None::<Seq<char>>,
        },
    decreases outputs.len(),
{
    if outputs.len() > 0 {
        match j {
            Some(j) => {
                if j > 0 {
                    assert(!streams_with_key(outputs[0]));
                    assert forall|i: int| 0 <= i < j - 1 implies !streams_with_key(
                        #[trigger] outputs.drop_first()[i],
                    ) by {
                        assert(outputs.drop_first()[i] == outputs[i + 1]);
                    }
                    assert(outputs.drop_first()[j - 1] == outputs[j]);
                    lemma_active_stream_key(outputs.drop_first(), Some(j - 1));
                }
            },
            None => {
                assert(!streams_with_key(outputs[0]));
                assert forall|i: int| 0 <= i < outputs.len() - 1 implies !streams_with_key(
                    #[trigger] outputs.drop_first()[i],
                ) by {
                    assert(outputs.drop_first()[i] == outputs[i + 1]);
                }
                lemma_active_stream_key(outputs.drop_first(), None);
            },
        }
    }
}

/// Retrieves the stream key of a currently active twitch stream: that of the
/// first active output whose service is a Twitch ingest server with a key.
pub fn current_stream_key(outputs: &Vec<obs_output_t>) -> (key: Option<String>)
    ensures
        match key {
            Some(k) => active_stream_key(outputs@) == Some(k@),
            None => active_stream_key(outputs@) is None,
        },
{
    // Enumeration goes on past outputs that are not active, or do not stream
    // to Twitch with a key.
    let keep_looking = |output: &obs_output_t| -> (go_on: bool)
        ensures
            go_on == !streams_with_key(*output),
        {
            if output.active() {
                match output.get_service() {
                    Some(service) => service.get_key().is_none() || !is_twitch_ingest_url(
                        service.get_url(),
                    ),
                    None => true,
                }
            } else {
                true
            }
        };
    let stopped_at = enum_outputs(outputs, keep_looking);
    match stopped_at {
        Some(j) => {
            proof {
                assert forall|i: int| 0 <= i < j implies !streams_with_key(#[trigger] outputs@[i]) by {
                    assert(call_ensures(keep_looking, (&outputs@[i],), true));
                }
                assert(call_ensures(keep_looking, (&outputs@[j as int],), false));
                lemma_active_stream_key(outputs@, Some(j as int));
            }
            let output = &outputs[j];
            match &output.service {
                Some(service) => match &service.key {
                    Some(k) => Some(k.clone()),
                    None => None,
                },
                None => None,
            }
        },
        None => {
            proof {
                assert forall|i: int| 0 <= i < outputs@.len() implies !streams_with_key(
                    #[trigger] outputs@[i],
                ) by {
                    assert(call_ensures(keep_looking, (&outputs@[i],), true));
                }
                lemma_active_stream_key(outputs@, None);
            }
            None
        },
    }
}

/// Whether an output is running and sends to a Twitch ingest server on which
/// a stream key is set.
pub open spec fn is_running_twitch_output(o: obs_output_t) -> bool {
    o.active && o.service is Some && o.service->Some_0.key is Some && is_twitch_ingest(
        o.service->Some_0.url@,
    )
}

/// The key of the currently active Twitch stream is the key, whole, of the
/// first output that is running and sends to a Twitch ingest server with a
/// key set; whatever that key holds, such an output is never passed over.
pub proof fn law_stream_key_is_first_twitch_key(outputs: Seq<obs_output_t>, j: int)
    requires
        0 <= j < outputs.len(),
        is_running_twitch_output(outputs[j]),
        forall|i: int| 0 <= i < j ==> !is_running_twitch_output(#[trigger] outputs[i]),
    ensures
        active_stream_key(outputs) == Some(outputs[j].service->Some_0.key->Some_0@),
{
    assert forall|i: int| 0 <= i < j implies !streams_with_key(#[trigger] outputs[i]) by {
        assert(!is_running_twitch_output(outputs[i]));
    }
    lemma_active_stream_key(outputs, Some(j));
}

/// No Twitch stream is active exactly where no output is running and sending
/// to a Twitch ingest server with a key set.
pub proof fn law_no_stream_key_without_twitch_output(outputs: Seq<obs_output_t>)
    requires
        forall|i: int| 0 <= i < outputs.len() ==> !is_running_twitch_output(#[trigger] outputs[i]),
    ensures
        active_stream_key(outputs) is None,
{
    assert forall|i: int| 0 <= i < outputs.len() implies !streams_with_key(#[trigger] outputs[i]) by {
        assert(!is_running_twitch_output(outputs[i]));
    }
    lemma_active_stream_key(outputs, None);
}

/// An error message: `prefix: error` where there is a prefix, else the
/// error alone.
pub open spec fn error_text(prefix: Option<Seq<char>>, e: Seq<char>) -> Seq<char> {
    match prefix {
        Some(p) => p + ": "@ + e,
        None => e,
    }
}

/// An error message keeps both of its parts whole: with a prefix it starts
/// with all of the prefix, then `: `, and ends with all of the error's text;
/// without one it is the error's text.
pub proof fn law_error_text_keeps_parts(prefix: Option<Seq<char>>, e: Seq<char>)
    ensures
        match prefix {
            Some(p) => {
                &&& error_text(prefix, e).len() == p.len() + 2 + e.len()
                &&& error_text(prefix, e).subrange(0, p.len() as int) == p
                &&& error_text(prefix, e).subrange(p.len() as int, p.len() + 2 as int) == ": "@
                &&& error_text(prefix, e).subrange(
                    p.len() + 2 as int,
                    error_text(prefix, e).len() as int,
                ) == e
            },
            None => error_text(prefix, e) == e,
        },
{
    reveal_strlit(": ");
    match prefix {
        Some(p) => {
            let t = error_text(prefix, e);
            assert(t.subrange(0, p.len() as int) =~= p);
            assert(t.subrange(p.len() as int, p.len() + 2 as int) =~= ": "@);
            assert(t.subrange(p.len() + 2 as int, t.len() as int) =~= e);
        },
        None => {},
    }
}

/// Formats an error (given by its displayed text), behind `prefix` if there
/// is one.
pub fn err_string(maybe_prefix: Option<&str>, e: &str) -> (s: String)
    ensures
        s@ == error_text(
            match maybe_prefix {
                Some(p) => Some(p@),
                None => None,
            },
            e@,
        ),
{
    match maybe_prefix {
        Some(prefix) => {
            let mut s = prefix.to_owned();
            s.append(": ");
            s.append(e);
            s
        },
        None => e.to_owned(),
    }
}

/// The text properties of the switcher: the channel status and the game,
/// each edited as a plain line of text, in that order.
pub open spec fn switcher_properties(p: obs_properties_t) -> bool {
    &&& p.properties@.len() == 2
    &&& p.properties@[0].name@ == KEY_STATUS@
    &&& p.properties@[0].description@ == "Channel Status"@
    &&& p.properties@[0].typ == obs_text_type::DEFAULT
    &&& p.properties@[1].name@ == KEY_GAME@
    &&& p.properties@[1].description@ == "Game"@
    &&& p.properties@[1].typ == obs_text_type::DEFAULT
    &&& p.flags == DEFER_UPDATE
}

impl DashboardSwitcher {
    /// The channel status that the switcher sets.
    pub closed spec fn status_of(&self) -> Seq<char> {
        self.status@
    }

    /// The game that the switcher sets.
    pub closed spec fn game_of(&self) -> Seq<char> {
        self.game@
    }

    /// A switcher that sets `status` and `game`.
    pub fn new(status: &str, game: &str) -> (d: DashboardSwitcher)
        ensures
            d.status_of() == status@,
            d.game_of() == game@,
    {
        DashboardSwitcher { status: status.to_owned(), game: game.to_owned() }
    }

    /// The channel settings to send: the switcher's status and game.
    pub fn channel_info(&self) -> (c: Channel)
        ensures
            c.status matches Some(s) && s@ == self.status_of(),
            c.game matches Some(g) && g@ == self.game_of(),
    {
        Channel { status: Some(self.status.clone()), game: Some(self.game.clone()) }
    }

    /// Registers the empty string as the default of both settings.
    pub fn get_defaults(settings: &mut obs_data_t)
        ensures
            final(settings).default_of(KEY_STATUS@) == Some(Seq::<char>::empty()),
            final(settings).default_of(KEY_GAME@) == Some(Seq::<char>::empty()),
            forall|k: Seq<char>|
                k != KEY_STATUS@ && k != KEY_GAME@ ==> final(settings).default_of(k) == old(
                    settings,
                ).default_of(k),
            forall|k: Seq<char>| final(settings).value_of(k) == old(settings).value_of(k),
    {
        proof {
            reveal_strlit("status");
            reveal_strlit("game");
            reveal_strlit("");
        }
        settings.set_default_string(KEY_STATUS, "");
        settings.set_default_string(KEY_GAME, "");
    }

    /// Takes the status and game from the settings.
    pub fn update(&mut self, settings: &obs_data_t)
        ensures
            final(self).status_of() == settings.string_of(KEY_STATUS@),
            final(self).game_of() == settings.string_of(KEY_GAME@),
    {
        self.status = settings.get_string(KEY_STATUS);
        self.game = settings.get_string(KEY_GAME);
    }

    /// The properties that the settings dialog of the switcher shows.
    pub fn get_properties(&self) -> (props: obs_properties_t)
        ensures
            switcher_properties(props),
    {
        let mut props = properties::create();
        props.add_text(KEY_STATUS, "Channel Status", obs_text_type::DEFAULT);
        props.add_text(KEY_GAME, "Game", obs_text_type::DEFAULT);
        props.set_flags(DEFER_UPDATE);
        props
    }
}

impl Source for DashboardSwitcher {
    /// The id of the source type.
    fn id() -> (id: &'static str)
        ensures
            id@ == SOURCE_ID@,
    {
        SOURCE_ID
    }

    /// The switcher is an input source.
    fn typ() -> (t: obs_source_type)
        ensures
            t == obs_source_type::INPUT,
    {
        obs_source_type::INPUT
    }

    /// The switcher has no video or audio output.
    fn output_flags() -> (f: u32)
        ensures
            f == 0,
    {
        0
    }

    /// A switcher that sets the status and game found in `settings`.
    fn create(settings: &mut obs_data_t, source: &mut obs_source_t) -> (d: DashboardSwitcher)
        ensures
            d.status_of() == old(settings).string_of(KEY_STATUS@),
            d.game_of() == old(settings).string_of(KEY_GAME@),
            *final(settings) == *old(settings),
    {
        let mut ret = DashboardSwitcher::new("", "");
        ret.update(settings);
        ret
    }

    /// The name of the source type.
    fn get_name(&self) -> (n: &str)
        ensures
            n@ == SOURCE_NAME@,
    {
        SOURCE_NAME
    }

    /// The switcher draws nothing: its width is 0.
    fn get_width(&mut self) -> (w: u32)
        ensures
            w == 0,
            *final(self) == *old(self),
    {
        0
    }

    /// The switcher draws nothing: its height is 0.
    fn get_height(&mut self) -> (h: u32)
        ensures
            h == 0,
            *final(self) == *old(self),
    {
        0
    }
}

/// A switcher created from settings on which no status or game has been set,
/// after the defaults of `get_defaults` are registered, sets an empty status
/// and an empty game.
pub proof fn law_default_settings_give_empty_channel(
    before: obs_data_t,
    after: obs_data_t,
    created: DashboardSwitcher,
)
    requires
        before.value_of(KEY_STATUS@) is None,
        before.value_of(KEY_GAME@) is None,
        after.default_of(KEY_STATUS@) == Some(Seq::<char>::empty()),
        after.default_of(KEY_GAME@) == Some(Seq::<char>::empty()),
        forall|k: Seq<char>| after.value_of(k) == before.value_of(k),
        created.status_of() == after.string_of(KEY_STATUS@),
        created.game_of() == after.string_of(KEY_GAME@),
    ensures
        created.status_of() == Seq::<char>::empty(),
        created.game_of() == Seq::<char>::empty(),
{
}

} // verus!
