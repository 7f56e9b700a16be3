# mywallpaper_desktop

The decision logic of the MyWallpaper desktop shell, written in Verus and proved
against its contracts.

- `src/` — the verified library:
  - `version` — release version parsing (`v` prefix, `-prerelease` suffix,
    `MAJOR.MINOR.PATCH`) and the no-downgrade rule, with its laws.
  - `commands` — URL policies for OAuth, deep links, the updater endpoint and opened
    paths; what an update check offers.
  - `url_parts`, `ip`, `text` — the parsed-URL model (the `url` crate does the parsing),
    IPv4/IPv6 address classes, and character-level string helpers.
  - `system_monitor` — category masks requested by the front end.
  - `media` — media-session summaries and the answers of an unsupported platform.
  - `discord` — the Rich Presence activity and connection life cycle.
  - `error` — the error type and the text the front end receives.
- `app/` — the desktop program: runtime commands, updater, browser, Discord client and
  system media sessions, calling the library for every decision.
- `tests/` — the behaviour tests.
