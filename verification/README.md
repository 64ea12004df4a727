# claude_usage

A menu-bar monitor of an AI subscription's rate-limit usage, with a helper
for a desktop widget. This crate is its verified core, written in Verus.

- `src/` — the library, verified by Verus:
  - `poller` — the background poller's backoff state machine (errors back
    off exponentially up to 15 minutes, rate limits honour `Retry-After` or
    back off with jitter, reconfiguration resets everything);
  - `oauth`, `pkce` — PKCE values, the authorization URL, the browser
    callback's checks (state must match), what a login or a token refresh
    stores, and when stored credentials are refreshed;
  - `keychain`, `commands`, `tray`, `updater` — token acceptance, the token
    store, the debug reports, the refresh interval, the tray's and updater's
    decisions;
  - `usage`, `helper` — the plan name, reset times and errors read from the
    usage endpoints, browser-cookie selection and credential-file rules of
    the widget helper;
  - `json`, `text`, `models`, `clock` — the JSON model, verified string
    helpers, the data types and the clock.
- `tests/` — tests of the library on concrete values.
- `app/` — the unverified shell: HTTP, files, keychain, timers, the Tauri
  interface, floating-point percentages, and the widget helper's `main`.
