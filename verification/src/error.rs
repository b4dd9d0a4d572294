//! The ways in which the components fail.

use vstd::prelude::*;

verus! {

/// Why the stored proxy address could not be reached, read, written or erased.
#[derive(Clone, Copy, Debug, PartialEq, Eq, Structural)]
pub enum ConfigError {
    /// The platform names no configuration directory for this user.
    PathResolution,
    /// No proxy address has been stored.
    NotConfigured,
    /// The file system refused the operation.
    Io,
}

/// Why a discovery attempt named no proxy.
#[derive(Clone, Copy, Debug, PartialEq, Eq, Structural)]
pub enum DiscoveryFailed {
    /// The socket could not be opened, configured or used.
    Socket,
    /// No reply came within the receive timeout.
    Timeout,
    /// A reply came, but it does not hold an address in the expected form.
    Unparsable,
}

/// Why the scheme handler could not be installed or removed.
#[derive(Clone, Copy, Debug, PartialEq, Eq, Structural)]
pub enum RegistrationError {
    /// The path of the running executable could not be determined.
    ExecutableUnknown,
    /// The user's home or data directory could not be determined.
    NoUserDirectory,
    /// A file, directory or registry value that the registration needs could not be written,
    /// or a required helper could not be started.
    WriteFailed,
    /// An artifact of the registration could not be deleted.
    DeleteFailed,
}

/// Why a link did not reach the proxy.
#[derive(Clone, Copy, Debug, PartialEq, Eq, Structural)]
pub enum ForwardError {
    /// The request could not be carried out.
    Transport,
    /// The proxy answered with a status other than 200.
    Status(u16),
}

/// Why handling a link failed.
#[derive(Clone, Copy, Debug, PartialEq, Eq, Structural)]
pub enum LinkError {
    /// The proxy address could not be loaded.
    ConfigurationMissing(ConfigError),
    /// The proxy address was loaded, but the link was not delivered.
    Forward(ForwardError),
}

} // verus!
