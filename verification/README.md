# tedge_plugins

Plugins for a thin-edge device agent — measurement filtering, averaging,
notifications, collectd and thin-edge JSON ingestion, MQTT bridging, software
management, inotify watches and system statistics — written as a library
whose behaviour is specified with contracts and proved with Verus.

## Layout

- `src/` — the verified library. Each plugin has a module with its
  configuration, its plugin type and the functions that decide what a plugin
  does with what it receives. Shared pieces:
  - `measurement.rs`: measurements and their values; maps are lists of
    entries read with `map_lookup`.
  - `extractor.rs`, `filter.rs`: paths into measurements and the filters
    applied to the values found there.
  - `text.rs`: splitting, searching and decimal numbers on characters, and
    the two trusted calls into std (building a `String`, decoding UTF-8).
  Numbers are carried as IEEE-754 binary64 bit patterns; the library never
  computes with floats.
- `tests/` — tests of the library on concrete values.
- `app/` — the I/O around the library: TOML configuration via serde, JSON
  encoding, reading system statistics with sysinfo, inotify watches, the
  HTTP stop server, logging, and the floating-point conversions.
