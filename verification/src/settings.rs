//! The constants of the tool, gathered in one record that is built once and
//! handed to every component that needs it.

use vstd::prelude::*;

verus! {

/// What the components need to know about the tool and its protocol.
#[derive(Clone, Debug, PartialEq, Eq)]
pub struct Settings {
    /// UDP port to which the discovery probe is broadcast.
    pub discovery_port: u16,
    /// Payload of the discovery probe.
    pub discovery_message: String,
    /// How long a reply to the probe is awaited, in milliseconds.
    pub receive_timeout_ms: u64,
    /// Size of the buffer that receives the reply, in bytes.
    pub reply_capacity: usize,
    /// Port on which a discovered proxy is assumed to listen.
    pub proxy_port: u16,
    /// The URL scheme that is routed to this tool.
    pub scheme: String,
    /// Name of the tool as shown to the user.
    pub app_name: String,
    /// Name of the executable.
    pub binary_name: String,
    /// Name of the file that stores the proxy address.
    pub config_file_name: String,
    /// Reverse-domain qualifier of the project.
    pub qualifier: String,
    /// Organization of the project.
    pub organization: String,
    /// Application name of the project.
    pub application: String,
}

/// The mathematical content of a `Settings`.
pub struct SettingsView {
    pub discovery_port: u16,
    pub discovery_message: Seq<char>,
    pub receive_timeout_ms: u64,
    pub reply_capacity: usize,
    pub proxy_port: u16,
    pub scheme: Seq<char>,
    pub app_name: Seq<char>,
    pub binary_name: Seq<char>,
    pub config_file_name: Seq<char>,
    pub qualifier: Seq<char>,
    pub organization: Seq<char>,
    pub application: Seq<char>,
}

impl View for Settings {
    type V = SettingsView;

    open spec fn view(&self) -> SettingsView {
        SettingsView {
            discovery_port: self.discovery_port,
            discovery_message: self.discovery_message@,
            receive_timeout_ms: self.receive_timeout_ms,
            reply_capacity: self.reply_capacity,
            proxy_port: self.proxy_port,
            scheme: self.scheme@,
            app_name: self.app_name@,
            binary_name: self.binary_name@,
            config_file_name: self.config_file_name@,
            qualifier: self.qualifier@,
            organization: self.organization@,
            application: self.application@,
        }
    }
}

/// The settings with which the tool ships.
pub open spec fn standard_settings() -> SettingsView {
    SettingsView {
        discovery_port: 32800,
        discovery_message: "GP_DISCOVER"@,
        receive_timeout_ms: 1500,
        reply_capacity: 1024,
        proxy_port: 8001,
        scheme: "globalprotect"@,
        app_name: "VPN Link Handler"@,
        binary_name: "vpn-link-handler"@,
        config_file_name: "proxy_url.txt"@,
        qualifier: "com"@,
        organization: "gpproxy"@,
        application: "linkhandler"@,
    }
}

impl Settings {
    /// The settings with which the tool ships.
    pub fn standard() -> (settings: Settings)
        ensures
            settings@ == standard_settings(),
    {
        Settings {
            discovery_port: 32800,
            discovery_message: "GP_DISCOVER".to_owned(),
            receive_timeout_ms: 1500,
            reply_capacity: 1024,
            proxy_port: 8001,
            scheme: "globalprotect".to_owned(),
            app_name: "VPN Link Handler".to_owned(),
            binary_name: "vpn-link-handler".to_owned(),
            config_file_name: "proxy_url.txt".to_owned(),
            qualifier: "com".to_owned(),
            organization: "gpproxy".to_owned(),
            application: "linkhandler".to_owned(),
        }
    }
}

} // verus!
