//! Delivery of a captured link to the proxy: one HTTP POST of a form with a
//! single field, answered by status 200 or failed.

use vstd::prelude::*;
use crate::error::ForwardError;
use crate::text::{strip_trailing, without_trailing};

verus! {

/// The path of the proxy that accepts links.
pub const SUBMIT_PATH: &'static str = "/submit";

/// The header that names the form's encoding.
pub const CONTENT_TYPE_HEADER: &'static str = "Content-Type";

/// The encoding of the form.
pub const FORM_CONTENT_TYPE: &'static str = "application/x-www-form-urlencoded";

/// The form field that carries the link.
pub const CALLBACK_FIELD: &'static str = "callback_url";

/// The only status that counts as delivery.
pub const DELIVERED: u16 = 200;

/// One request to the proxy.
#[derive(Clone, Debug, PartialEq, Eq)]
pub struct ForwardRequest {
    /// The URL to which the form is posted.
    pub endpoint: String,
    /// Name of the header that is set on the request.
    pub header: String,
    /// Value of that header.
    pub header_value: String,
    /// Name of the form's one field.
    pub field: String,
    /// Value of that field: the link as it was received, scheme included.
    pub value: String,
}

/// The mathematical content of a `ForwardRequest`.
pub struct ForwardRequestView {
    pub endpoint: Seq<char>,
    pub header: Seq<char>,
    pub header_value: Seq<char>,
    pub field: Seq<char>,
    pub value: Seq<char>,
}

impl View for ForwardRequest {
    type V = ForwardRequestView;

    open spec fn view(&self) -> ForwardRequestView {
        ForwardRequestView {
            endpoint: self.endpoint@,
            header: self.header@,
            header_value: self.header_value@,
            field: self.field@,
            value: self.value@,
        }
    }
}

/// How the one attempt to reach the proxy ended.
#[derive(Clone, Copy, Debug, PartialEq, Eq, Structural)]
pub enum TransportOutcome {
    /// No response was received.
    Failed,
    /// The proxy answered with this status.
    Status(u16),
}

/// The URL that accepts links at the proxy with base address `base`: the
/// base without the slashes it ends with, then the submit path.
pub open spec fn submit_endpoint(base: Seq<char>) -> Seq<char> {
    without_trailing(base, '/') + SUBMIT_PATH@
}

/// The request that delivers `callback_url` to `endpoint`.
pub open spec fn request_for(endpoint: Seq<char>, callback_url: Seq<char>) -> ForwardRequestView {
    ForwardRequestView {
        endpoint,
        header: CONTENT_TYPE_HEADER@,
        header_value: FORM_CONTENT_TYPE@,
        field: CALLBACK_FIELD@,
        value: callback_url,
    }
}

/// Whether the attempt delivered the link: it did if and only if the proxy
/// answered with status 200.
pub open spec fn delivery(outcome: TransportOutcome) -> Result<(), ForwardError> {
    match outcome {
        TransportOutcome::Failed => Err(ForwardError::Transport),
        TransportOutcome::Status(status) => if status == DELIVERED {
            Ok(())
        } else {
            Err(ForwardError::Status(status))
        },
    }
}

/// The URL that accepts links at the proxy with base address `base`.
pub fn endpoint(base: &str) -> (url: String)
    ensures
        url@ == submit_endpoint(base@),
{
    let mut url = strip_trailing(base, '/');
    url.append(SUBMIT_PATH);
    url
}

/// The request that delivers `callback_url` to `endpoint`.
pub fn request(endpoint: &str, callback_url: &str) -> (request: ForwardRequest)
    ensures
        request@ == request_for(endpoint@, callback_url@),
{
    ForwardRequest {
        endpoint: endpoint.to_owned(),
        header: CONTENT_TYPE_HEADER.to_owned(),
        header_value: FORM_CONTENT_TYPE.to_owned(),
        field: CALLBACK_FIELD.to_owned(),
        value: callback_url.to_owned(),
    }
}

/// Whether the attempt delivered the link. There is no second attempt.
pub fn forward(outcome: TransportOutcome) -> (result: Result<(), ForwardError>)
    ensures
        result == delivery(outcome),
        result is Ok <==> outcome == TransportOutcome::Status(200),
{
    match outcome {
        TransportOutcome::Failed => Err(ForwardError::Transport),
        TransportOutcome::Status(status) => if status == DELIVERED {
            Ok(())
        } else {
            Err(ForwardError::Status(status))
        },
    }
}

} // verus!
