//! Discovery of the proxy on the local network: one broadcast probe, one
//! reply, and the address that the reply names.
//!
//! The reply is text in a loose, JSON-like form. It is not parsed as JSON:
//! the address is what stands between the marker `"ip": "` and the next
//! quotation mark.

use vstd::prelude::*;
use crate::error::DiscoveryFailed;
use crate::host::{decode_lossy, utf8_lossy};
use crate::settings::{Settings, SettingsView};
use crate::text::{
    decimal,
    decimal_text,
    extract_field,
    field_after,
    is_first_occurrence,
    law_field_after,
    law_first_occurrence,
    occurs,
    occurs_at,
    optional_text,
};

verus! {

/// What introduces the address in a reply.
pub const ADDRESS_MARKER: &'static str = "\"ip\": \"";

/// What ends the address in a reply.
pub const ADDRESS_END: &'static str = "\"";

/// Any local address, any port.
pub const ANY_ADDRESS: &'static str = "0.0.0.0:0";

/// The limited broadcast address, with the colon that precedes the port.
pub const BROADCAST_PREFIX: &'static str = "255.255.255.255:";

pub const URL_SCHEME_PREFIX: &'static str = "http://";

pub const PORT_SEPARATOR: &'static str = ":";

/// The probe to send and how to await its reply: one datagram is sent, and
/// one reply or the timeout is awaited.
#[derive(Clone, Debug, PartialEq, Eq)]
pub struct Probe {
    /// Address and port to which the socket is bound: any address, any port.
    pub local_address: String,
    /// Whether the socket is allowed to broadcast.
    pub broadcast: bool,
    /// The bytes of the datagram.
    pub payload: Vec<u8>,
    /// Address and port to which the datagram is broadcast.
    pub destination: String,
    /// How long a reply is awaited, in milliseconds.
    pub timeout_ms: u64,
    /// Size of the buffer that receives the reply, in bytes.
    pub reply_capacity: usize,
}

/// The mathematical content of a `Probe`.
pub struct ProbeView {
    pub local_address: Seq<char>,
    pub broadcast: bool,
    pub payload: Seq<u8>,
    pub destination: Seq<char>,
    pub timeout_ms: u64,
    pub reply_capacity: usize,
}

impl View for Probe {
    type V = ProbeView;

    open spec fn view(&self) -> ProbeView {
        ProbeView {
            local_address: self.local_address@,
            broadcast: self.broadcast,
            payload: self.payload@,
            destination: self.destination@,
            timeout_ms: self.timeout_ms,
            reply_capacity: self.reply_capacity,
        }
    }
}

/// How a probe ended.
#[derive(Clone, Debug, PartialEq, Eq)]
pub enum ProbeOutcome {
    /// The socket could not be opened, configured or used.
    SocketFailed,
    /// No reply came in time.
    TimedOut,
    /// This datagram came.
    Reply(Vec<u8>),
}

/// The mathematical content of a `ProbeOutcome`.
pub enum ProbeOutcomeView {
    SocketFailed,
    TimedOut,
    Reply(Seq<u8>),
}

impl View for ProbeOutcome {
    type V = ProbeOutcomeView;

    open spec fn view(&self) -> ProbeOutcomeView {
        match self {
            ProbeOutcome::SocketFailed => ProbeOutcomeView::SocketFailed,
            ProbeOutcome::TimedOut => ProbeOutcomeView::TimedOut,
            ProbeOutcome::Reply(datagram) => ProbeOutcomeView::Reply(datagram@),
        }
    }
}

/// The probe that the settings describe: the message in UTF-8, broadcast to
/// the discovery port.
pub open spec fn probe_of(settings: SettingsView) -> ProbeView {
    ProbeView {
        local_address: ANY_ADDRESS@,
        broadcast: true,
        payload: vstd::utf8::encode_utf8(settings.discovery_message),
        destination: BROADCAST_PREFIX@ + decimal(settings.discovery_port as nat),
        timeout_ms: settings.receive_timeout_ms,
        reply_capacity: settings.reply_capacity,
    }
}

/// The address that the text of a reply names.
pub open spec fn address_in(text: Seq<char>) -> Option<Seq<char>> {
    field_after(text, ADDRESS_MARKER@, ADDRESS_END@)
}

/// What a reply with the given text discovered: the address that the text
/// names, or nothing.
pub open spec fn named_in(text: Seq<char>) -> Result<Seq<char>, DiscoveryFailed> {
    match address_in(text) {
        Some(address) => Ok(address),
        None => Err(DiscoveryFailed::Unparsable),
    }
}

/// What a probe that ended with `outcome` discovered.
pub open spec fn discovered(outcome: ProbeOutcomeView) -> Result<Seq<char>, DiscoveryFailed> {
    match outcome {
        ProbeOutcomeView::SocketFailed => Err(DiscoveryFailed::Socket),
        ProbeOutcomeView::TimedOut => Err(DiscoveryFailed::Timeout),
        ProbeOutcomeView::Reply(datagram) => named_in(utf8_lossy(datagram)),
    }
}

/// The URL at which a proxy with the discovered address is assumed to listen.
pub open spec fn candidate(address: Seq<char>, settings: SettingsView) -> Seq<char> {
    URL_SCHEME_PREFIX@ + address + PORT_SEPARATOR@ + decimal(settings.proxy_port as nat)
}

/// The mathematical content of a discovered address or of the failure to discover one.
pub open spec fn discovery_view(found: Result<String, DiscoveryFailed>) -> Result<
    Seq<char>,
    DiscoveryFailed,
> {
    match found {
        Ok(address) => Ok(address@),
        Err(error) => Err(error),
    }
}

/// The probe to send.
pub fn probe(settings: &Settings) -> (probe: Probe)
    ensures
        probe@ == probe_of(settings@),
{
    let mut destination = BROADCAST_PREFIX.to_owned();
    let port = decimal_text(settings.discovery_port as u64);
    destination.append(port.as_str());
    Probe {
        local_address: ANY_ADDRESS.to_owned(),
        broadcast: true,
        payload: settings.discovery_message.as_str().as_bytes_vec(),
        destination,
        timeout_ms: settings.receive_timeout_ms,
        reply_capacity: settings.reply_capacity,
    }
}

/// The address that the text of a reply names.
pub fn extract_address(text: &str) -> (address: Option<String>)
    ensures
        optional_text(address) == address_in(text@),
{
    extract_field(text, ADDRESS_MARKER, ADDRESS_END)
}

/// The address that a reply names. The datagram is read as UTF-8, with
/// ill-formed parts replaced rather than refused.
pub fn parse_reply(datagram: &[u8]) -> (address: Option<String>)
    ensures
        optional_text(address) == address_in(utf8_lossy(datagram@)),
        vstd::utf8::valid_utf8(datagram@) ==> optional_text(address) == address_in(
            vstd::utf8::decode_utf8(datagram@),
        ),
{
    let text = decode_lossy(datagram);
    extract_address(text.as_str())
}

/// What a probe that ended with `outcome` discovered. A reply that is
/// well-formed UTF-8 is read as the text that it encodes.
pub fn discover(outcome: &ProbeOutcome) -> (found: Result<String, DiscoveryFailed>)
    ensures
        discovery_view(found) == discovered(outcome@),
        outcome@ matches ProbeOutcomeView::Reply(datagram) ==> (vstd::utf8::valid_utf8(datagram)
            ==> discovery_view(found) == named_in(vstd::utf8::decode_utf8(datagram))),
{
    match outcome {
        ProbeOutcome::SocketFailed => Err(DiscoveryFailed::Socket),
        ProbeOutcome::TimedOut => Err(DiscoveryFailed::Timeout),
        ProbeOutcome::Reply(datagram) => match parse_reply(datagram.as_slice()) {
            Some(address) => Ok(address),
            None => Err(DiscoveryFailed::Unparsable),
        },
    }
}

/// The URL at which a proxy with the discovered address is assumed to listen.
pub fn candidate_url(address: &str, settings: &Settings) -> (url: String)
    ensures
        url@ == candidate(address@, settings@),
{
    let port = decimal_text(settings.proxy_port as u64);
    let mut url = URL_SCHEME_PREFIX.to_owned();
    url.append(address);
    url.append(PORT_SEPARATOR);
    url.append(port.as_str());
    url
}

/// A reply whose text lacks the marker discovers nothing, and neither does
/// silence or a failure of the socket.
pub proof fn law_reply_without_marker_fails(datagram: Seq<u8>)
    ensures
        !occurs(utf8_lossy(datagram), ADDRESS_MARKER@) ==> discovered(
            ProbeOutcomeView::Reply(datagram),
        ) == Err::<Seq<char>, DiscoveryFailed>(DiscoveryFailed::Unparsable),
        discovered(ProbeOutcomeView::TimedOut) is Err,
        discovered(ProbeOutcomeView::SocketFailed) is Err,
{
    law_first_occurrence(utf8_lossy(datagram), ADDRESS_MARKER@);
}

/// An address is accepted only in the expected form. Where the text of a
/// reply names an address, the text holds, from the position that the law
/// returns on, the marker, the address and a quotation mark in a row; that
/// position is the leftmost at which the marker stands, and the address
/// holds no quotation mark.
pub proof fn law_address_is_delimited(text: Seq<char>) -> (start: int)
    ensures
        address_in(text) matches Some(address) ==> {
            &&& is_first_occurrence(text, ADDRESS_MARKER@, start)
            &&& text.subrange(start, start + ADDRESS_MARKER@.len() + address.len() + 1)
                == ADDRESS_MARKER@ + address + seq!['"']
            &&& !address.contains('"')
        },
{
    reveal_strlit("\"");
    assert(ADDRESS_END@ =~= seq!['"']);
    let start = law_field_after(text, ADDRESS_MARKER@, ADDRESS_END@);
    if let Some(address) = address_in(text) {
        let rest = text.skip(start + ADDRESS_MARKER@.len());
        assert forall|i: int| 0 <= i < address.len() implies address[i] != '"' by {
            if address[i] == '"' {
                assert(rest.subrange(i, i + 1) =~= seq!['"']);
                assert(occurs_at(rest, ADDRESS_END@, i));
            }
        }
    }
    start
}

} // verus!
