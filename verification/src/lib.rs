//! Routing of a custom URL scheme to a local proxy: the decisions of a small
//! per-user tool that registers itself as the handler of a scheme, finds the
//! proxy by a broadcast probe, stores its address and forwards each link to it.
//!
//! The library computes and decides; the program around it reads files,
//! sockets and the console, and carries out what the library asks for.
//!
//! - [`orchestrator`] holds the three flows of a run: forwarding a link,
//!   uninstalling, and the interactive setup.
//! - [`config_store`], [`discovery`], [`registrar`] and [`forwarder`] are
//!   the components that the flows use.
//! - [`plan`] describes the changes that the program makes to the host, and
//!   [`effects`] says, over a model of the host, what those changes achieve.
//! - [`text`] searches and trims text; [`settings`] holds the constants of
//!   the tool; [`error`] names the failures.
//! - [`host`] is the boundary to the user's directories and to the decoding
//!   of bytes, which the library takes on trust.

pub mod config_store;
pub mod discovery;
pub mod effects;
pub mod error;
pub mod forwarder;
pub mod host;
pub mod orchestrator;
pub mod plan;
pub mod registrar;
pub mod settings;
pub mod text;
