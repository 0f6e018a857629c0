# kopuz

The logic of the Kopuz music player, verified with Verus.

`src/` is the library; every function in it carries a contract that Verus
proves:

- `engine`, `engine_core` — the playback engine's vocabulary and its decision
  core: a state machine from engine state and event to next state and the
  effects the host performs (load, probe, crossfade, seek, pause, device
  recovery, end-of-track detection).
- `decode`, `output` — codec header inspection, channel mapping, ring sizing,
  and the choice of output configuration.
- `player` — the player façade's tokens, seek clamping and now-playing state.
- `replaygain` — finding ReplayGain and R128 tags and reading their values.
- `downloads`, `download_jobs`, `range_download` — YouTube download naming,
  formats, byte-range planning and the ranged transfer's retry decisions,
  the ffmpeg command line, the job list and its history.
- `spotify_cache` — when the Spotify backend is rebuilt and when the cached
  one is kept.
- `radio`, `radio_page` — the station registry, manifest resolution, the
  station filter, pins and the search debounce.
- `albums` — synthetic albums for services without an albums endpoint.
- `local_files` — the policy for deleting tracks from local libraries.
- `plugin`, `plugin_auth` — the reference folder plugin (index, protocol
  methods, byte routing) and the plugin sign-in wizard.
- `api`, `proto`, `messages`, `service_messages`, `catalog_messages`,
  `library_messages`, `settings_messages`, `status`, `pipe` — the wire
  contract: every api value's conversion to its wire message and back, each
  with a round-trip law (JSON-carrying values when their text is JSON; a
  few enumerations' `Unknown` values read back as the default), error status
  mapping and the Windows pipe name. Settings, yt-dlp options and error
  details travel as JSON text.
- `text` — string helpers with specifications (trimming, searching,
  decimal formatting).

`app/` holds what the library cannot: the plugin program with its stdio and
TCP loops, the engine actor's thread, filesystem and process work, JSON
forms of the library's types, and floating-point audio and gain code.
