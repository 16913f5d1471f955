# asahi

A dark-mode daemon for the XDG desktop portal: it serves
`org.freedesktop.impl.portal.Settings` and switches `color-scheme` between
light (from sunrise) and dark (from sunset), runs hook scripts on each
switch, and takes manual overrides over D-Bus.

## Layout

- `src/` — the library, written in Verus and verified: the theme decision,
  the flows of the daemon as a state machine (`daemon.rs`), the settings
  portal and its namespace filter (`dbus_portal/`), configuration parsing and
  merging (`config.rs`, with `toml_input.rs` deciding which texts are
  handed to the TOML parser at all), the location cache file format and the location
  providers' decisions (`location/`), hook selection and ordering
  (`hooks.rs`), and the wake-up decisions (`dbus/listener.rs`).
- `app/` — the daemon binary: D-Bus, the network, the clock, the file
  system, the solar computation and logging. It performs the actions the
  library's state machines ask for and hands back what came of them.
- `tests/` — tests of the library on concrete values.

## Behaviour worth knowing

- `setManualDarkMode` takes -1 (follow the sun), 0, 1 or 2; any other mode is
  ignored, so only 0, 1 or 2 is ever broadcast or reported as `currentTheme`.
- `todayTransitionTimes` and `nextTransitionAt` answer with RFC 3339
  timestamps carrying the zone's offset; after today's sunset,
  `nextTransitionAt` gives tomorrow's sunrise.
- A configuration file is read unless the TOML parser could fault on it: an
  escape in a basic string cut inside a multi-byte character, a number token
  longer than 768 bytes, a fraction of a second of nine or more digits, a
  date-time hour without `:`, arrays or inline tables nested more than 256
  deep, or a run of more than 16384 comment lines. Such a file counts as
  unparseable.
- An answer of the IP geolocation service whose arrays and objects nest more
  than 128 deep (outside its strings) is refused before it is parsed.
