//! Verified core of a Tor-routing tabbed browser: the SOCKS5 handshake that
//! feeds the embedded Tor client, the naming of windows, tabs and their
//! per-tab profile directories, the interception of new-window navigations,
//! the bookkeeping of which tab is shown in which window, and the Tor
//! bootstrap status.

pub mod labels;
pub mod navigation;
pub mod socks5;
pub mod socks5_laws;
pub mod status;
pub mod tabs;
pub mod text;
