# obs_twitch_dashboard

An OBS-Studio plugin that provides the functions of the Twitch dashboard from
within OBS: a source, the *Twitch Dashboard Switcher*, that holds a channel
status and a game, and sets them on the Twitch channel that OBS streams to
whenever the source is shown.

The decisions of the plugin are a library verified with Verus (`src/`):

- `obs_ffi`: the packed version number that libobs expects, with laws that
  packing is lossless and order-preserving for in-range fields.
- `obs`: the libobs objects the plugin reads and writes (settings, outputs,
  services, properties) held as plain values, the traits that read and write
  them, the enumeration of outputs, and `OBSBox`, which holds an item that
  OBS must deallocate until it is destroyed or handed on.
- `twitch`: the channel records of the Twitch API, the JSON body of a channel
  update, the headers of an API request and the authorization URL.
- `switcher`: the source itself, the choice of the stream key of the active
  Twitch stream (an output whose service streams to a Twitch ingest server), the
  activation as a state machine (token, channel lookup, channel update, the
  report of the outcome) and the request routing of the local token server.

`app/` holds what the library leaves to its host: the libobs C API and the
module entry points, the guard that destroys an `OBSBox` when it leaves
scope, the conversion of libobs objects, the HTTP client and
server, the browser, threads, and logging. It drives the activation by
performing each action that the library asks for and handing back the
outcome.

The Twitch client id of the application is read from the `TWITCH_CLIENT_ID`
environment variable when the plugin is built; a plugin built without it
refuses to load.
