# rls-desktop

The logic of the Readloop tray app, verified with Verus: the persisted
configuration and its generated credentials, the launch specifications of
the two Node services (news2reader for delivery, crosspoint-sync for the
archive), the table of running services, Tailscale Funnel remote access,
WebDAV transfers to the CrossPoint device, and the auto-linking of the
Readwise Reader connector.

- `src/` is the verified library. Each module states its functions'
  behaviour in `requires`/`ensures`; `src/laws.rs` proves properties that
  span several functions.
- `app/` is the Tauri shell around it: file and process I/O, HTTP requests,
  the tray and popover, and the serde copies of the library's types.
- `tests/` exercises the library on concrete values.
