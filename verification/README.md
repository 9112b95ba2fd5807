# torlite

The verified core of a small Tor-routing tabbed browser.

- `src/socks5.rs` – the SOCKS5 handshake of the local proxy as a state machine
  (bytes in, replies and outside work out); `src/socks5_laws.rs` – what it does
  with whole client messages.
- `src/labels.rs` – window/tab numbering, tab labels, per-tab profile
  directory names, start-up clean-up and close-time clean-up of profiles.
- `src/navigation.rs` – interception of "open in a new window" navigations and
  checking of user-typed URLs (through the `url` crate).
- `src/tabs.rs` – tab planning, which tab each window shows, tab layout, page
  commands.
- `src/status.rs` – the Tor bootstrap status, settled once by the bootstrap outcome.
- `src/text.rs` – decimal rendering and prefix tests.
- `app/` – the Tauri application, the Tor client and the sockets, which drive
  the library.
