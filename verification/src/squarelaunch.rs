//! Messages from the SquareLaunch WebSocket service.
use vstd::prelude::*;

use crate::config::{find_member, member};
use crate::json::{fields_view, json_object_fields, parse_json_object_fields, FieldView, JsonField, JsonScalar, ScalarView};
use crate::discovery::DiscoveredSquareLaunchEndpoint;
use crate::state::{ConnectionStatus, SquareLaunchStatus};
use crate::text::{chars_of, decimal_text, push_decimal, push_str, same_text, string_from_chars, text_of};

verus! {

/// The kinds of message the service sends, by their `type` member.
#[derive(Debug, Clone, PartialEq, Eq)]
pub enum SquareLaunchMessageKind {
    Shot,
    Status,
    Other(String),
}

/// `shot` and `status` are known; any other type is kept by name.
pub fn message_kind(message_type: &str) -> (r: SquareLaunchMessageKind)
    ensures
        message_type@ == "shot"@ ==> r is Shot,
        message_type@ == "status"@ ==> r is Status,
        message_type@ != "shot"@ && message_type@ != "status"@ ==> (r matches SquareLaunchMessageKind::Other(n) && n@ == message_type@),
{
    proof {
        reveal_strlit("shot");
        reveal_strlit("status");
        assert("shot"@.len() != "status"@.len());
    }
    let t = chars_of(message_type);
    if same_text(&t, &chars_of("shot")) {
        SquareLaunchMessageKind::Shot
    } else if same_text(&t, &chars_of("status")) {
        SquareLaunchMessageKind::Status
    } else {
        SquareLaunchMessageKind::Other(text_of(message_type))
    }
}

pub open spec fn unsigned_result(r: Result<u64, String>) -> Result<u64, Seq<char>> {
    match r {
        Ok(n) => Ok(n),
        Err(e) => Err(e@),
    }
}

/// The member `name` as an unsigned integer: missing, or present with
/// another kind of value, it is an error that names it.
pub open spec fn required_unsigned(fields: Seq<FieldView>, name: Seq<char>) -> Result<u64, Seq<char>> {
    match member(fields, name) {
        None => Err("missing "@ + name),
        Some(ScalarView::Unsigned(n)) => Ok(n),
        Some(_) => Err(name + " must be an unsigned integer"@),
    }
}

/// The shot number of a shot message, read from its text.
pub open spec fn shot_number_of(text: Seq<char>) -> Result<u64, Seq<char>> {
    match json_object_fields(text) {
        Err(e) => Err("invalid SquareLaunch shot JSON: "@ + e),
        Ok(fields) => required_unsigned(fields, "shot_number"@),
    }
}

pub fn required_unsigned_field(fields: &Vec<JsonField>, name: &str) -> (r: Result<u64, String>)
    ensures
        unsigned_result(r) == required_unsigned(fields_view(fields@), name@),
{
    match find_member(fields, name) {
        None => {
            let mut msg = chars_of("missing ");
            push_str(&mut msg, name);
            Err(string_from_chars(&msg))
        },
        Some(JsonScalar::Unsigned(n)) => Ok(*n),
        Some(_) => {
            let mut msg = chars_of(name);
            push_str(&mut msg, " must be an unsigned integer");
            Err(string_from_chars(&msg))
        },
    }
}

/// Reads the `shot_number` member of a shot message.
pub fn shot_number_from_text(text: &str) -> (r: Result<u64, String>)
    ensures
        unsigned_result(r) == shot_number_of(text@),
{
    match parse_json_object_fields(text) {
        Err(e) => {
            let mut msg = chars_of("invalid SquareLaunch shot JSON: ");
            push_str(&mut msg, e.as_str());
            Err(string_from_chars(&msg))
        },
        Ok(fields) => required_unsigned_field(&fields, "shot_number"),
    }
}

// ------------------------------------------------------------------
// The client's connection cycle
// ------------------------------------------------------------------

/// What happened since the client's last step.
#[derive(Debug)]
pub enum LinkEvent {
    /// A new round starts.
    Begin,
    /// Discovery found the service.
    Discovered(DiscoveredSquareLaunchEndpoint),
    /// Discovery failed with this report.
    DiscoveryFailed(String),
    /// The discovery task itself failed; the text says how.
    DiscoveryTaskFailed(String),
    /// The WebSocket is open.
    Opened,
    /// The WebSocket could not be opened; the text is the error.
    OpenFailed(String),
    /// The WebSocket closed, or reading from it stopped.
    Closed,
}

/// What the client does next.
#[derive(Debug, Clone, PartialEq, Eq)]
pub enum LinkAction {
    /// Look for the service on the network.
    Discover,
    /// Open the WebSocket at this URL.
    Open(String),
    /// Read messages until the socket closes.
    Pump,
    /// Wait this many milliseconds, then begin a new round.
    Retry(u64),
}

/// The WebSocket URL of a service at `host:port`.
pub open spec fn ws_url(host: Seq<char>, port: u16) -> Seq<char> {
    "ws://"@ + host + ":"@ + decimal_text(port as nat)
}

pub fn ws_url_of(host: &str, port: u16) -> (r: String)
    ensures
        r@ == ws_url(host@, port),
{
    let mut url = chars_of("ws://");
    push_str(&mut url, host);
    push_str(&mut url, ":");
    push_decimal(&mut url, port as u64);
    string_from_chars(&url)
}

/// One step of the client: how the event changes the SquareLaunch status,
/// and what to do next. With a configured host the client connects to it
/// directly; otherwise it discovers the service first. A failed discovery
/// is retried after two seconds; after the socket closes or fails to open,
/// the status shows the link as disconnected and a new round starts after
/// 750 ms.
pub fn squarelaunch_step(
    configured_host: &Option<String>,
    configured_port: u16,
    status: &mut SquareLaunchStatus,
    event: LinkEvent,
) -> (r: LinkAction)
    ensures
        final(status).enabled == old(status).enabled,
        final(status).last_shot_number == old(status).last_shot_number,
        match event {
            LinkEvent::Begin => match configured_host {
                Some(h) => {
                    &&& final(status).connection_status == ConnectionStatus::Connecting
                    &&& final(status).last_error is None
                    &&& final(status).host == old(status).host
                    &&& final(status).port == old(status).port
                    &&& r matches LinkAction::Open(u) && u@ == ws_url(h@, configured_port)
                },
                None => {
                    &&& final(status).connection_status == ConnectionStatus::Scanning
                    &&& final(status).last_error is None
                    &&& final(status).host == old(status).host
                    &&& final(status).port == old(status).port
                    &&& r is Discover
                },
            },
            LinkEvent::Discovered(ep) => {
                &&& final(status).connection_status == ConnectionStatus::Connecting
                &&& final(status).last_error is None
                &&& final(status).host == Some(ep.host)
                &&& final(status).port == ep.port
                &&& r matches LinkAction::Open(u) && u@ == ws_url(ep.host@, ep.port)
            },
            LinkEvent::DiscoveryFailed(err) => {
                &&& final(status).connection_status == ConnectionStatus::Error
                &&& final(status).last_error == Some(err)
                &&& final(status).host == old(status).host
                &&& final(status).port == old(status).port
                &&& r == LinkAction::Retry(2000)
            },
            LinkEvent::DiscoveryTaskFailed(detail) => {
                &&& final(status).connection_status == ConnectionStatus::Error
                &&& final(status).last_error matches Some(e) && e@
                    == "SquareLaunch discovery task failed: "@ + detail@
                &&& final(status).host == old(status).host
                &&& final(status).port == old(status).port
                &&& r == LinkAction::Retry(2000)
            },
            LinkEvent::Opened => {
                &&& final(status).connection_status == ConnectionStatus::Connected
                &&& final(status).last_error is None
                &&& final(status).host == old(status).host
                &&& final(status).port == old(status).port
                &&& r == LinkAction::Pump
            },
            LinkEvent::OpenFailed(detail) => {
                &&& final(status).connection_status == ConnectionStatus::Disconnected
                &&& final(status).last_error matches Some(e) && e@
                    == "SquareLaunch websocket connect failed: "@ + detail@
                &&& final(status).host == old(status).host
                &&& final(status).port == old(status).port
                &&& r == LinkAction::Retry(750)
            },
            LinkEvent::Closed => {
                &&& final(status).connection_status == ConnectionStatus::Disconnected
                &&& final(status).last_error == old(status).last_error
                &&& final(status).host == old(status).host
                &&& final(status).port == old(status).port
                &&& r == LinkAction::Retry(750)
            },
        },
{
    match event {
        LinkEvent::Begin => match configured_host {
            Some(h) => {
                status.mark_connecting();
                LinkAction::Open(ws_url_of(h.as_str(), configured_port))
            },
            None => {
                status.mark_scanning();
                LinkAction::Discover
            },
        },
        LinkEvent::Discovered(ep) => {
            let url = ws_url_of(ep.host.as_str(), ep.port);
            status.record_discovery(ep.host, ep.port);
            status.mark_connecting();
            LinkAction::Open(url)
        },
        LinkEvent::DiscoveryFailed(err) => {
            status.mark_failed(err);
            LinkAction::Retry(2000)
        },
        LinkEvent::DiscoveryTaskFailed(detail) => {
            let mut msg = chars_of("SquareLaunch discovery task failed: ");
            push_str(&mut msg, detail.as_str());
            status.mark_failed(string_from_chars(&msg));
            LinkAction::Retry(2000)
        },
        LinkEvent::Opened => {
            status.mark_connected();
            LinkAction::Pump
        },
        LinkEvent::OpenFailed(detail) => {
            status.mark_connect_failed(detail.as_str());
            status.mark_disconnected();
            LinkAction::Retry(750)
        },
        LinkEvent::Closed => {
            status.mark_disconnected();
            LinkAction::Retry(750)
        },
    }
}

} // verus!
