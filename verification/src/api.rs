//! Request and response bodies of the connector's HTTP API, and the choice of
//! the port the API listens on.
use vstd::prelude::*;

use crate::config::opt_text;
use crate::device::DeviceConnectOptions;
use crate::text::{chars_of, decimal_text, push_decimal, push_str, string_from_chars};

verus! {

/// Whether the API accepted a request.
#[derive(Debug, Clone, Copy, PartialEq, Eq, Structural)]
pub struct ActionAccepted {
    accepted: bool,
}

impl ActionAccepted {
    pub closed spec fn spec_accepted(&self) -> bool {
        self.accepted
    }

    pub fn new(accepted: bool) -> (r: Self)
        ensures
            r.spec_accepted() == accepted,
    {
        ActionAccepted { accepted }
    }

    pub fn accepted(&self) -> (r: bool)
        ensures
            r == self.spec_accepted(),
    {
        self.accepted
    }
}

/// A change of settings: every field that is present replaces its setting.
#[derive(Debug, Clone, PartialEq, Eq)]
pub struct ConfigUpdate {
    pub gspro_enabled: Option<bool>,
    pub gspro_host: Option<String>,
    pub gspro_port: Option<u16>,
    pub infinite_tees_enabled: Option<bool>,
    pub infinite_tees_host: Option<String>,
    pub infinite_tees_port: Option<u16>,
    pub squarelaunch_enabled: Option<bool>,
    pub squarelaunch_ws_host: Option<String>,
    pub squarelaunch_ws_port: Option<u16>,
}

pub struct UpdateView {
    pub gspro_enabled: Option<bool>,
    pub gspro_host: Option<Seq<char>>,
    pub gspro_port: Option<u16>,
    pub infinite_tees_enabled: Option<bool>,
    pub infinite_tees_host: Option<Seq<char>>,
    pub infinite_tees_port: Option<u16>,
    pub squarelaunch_enabled: Option<bool>,
    pub squarelaunch_ws_host: Option<Seq<char>>,
    pub squarelaunch_ws_port: Option<u16>,
}

impl View for ConfigUpdate {
    type V = UpdateView;

    open spec fn view(&self) -> UpdateView {
        UpdateView {
            gspro_enabled: self.gspro_enabled,
            gspro_host: opt_text(self.gspro_host),
            gspro_port: self.gspro_port,
            infinite_tees_enabled: self.infinite_tees_enabled,
            infinite_tees_host: opt_text(self.infinite_tees_host),
            infinite_tees_port: self.infinite_tees_port,
            squarelaunch_enabled: self.squarelaunch_enabled,
            squarelaunch_ws_host: opt_text(self.squarelaunch_ws_host),
            squarelaunch_ws_port: self.squarelaunch_ws_port,
        }
    }
}

impl ConfigUpdate {
    /// Whether the update names a GSPro setting.
    pub fn touches_gspro(&self) -> (r: bool)
        ensures
            r == (self.gspro_enabled is Some || self.gspro_host is Some || self.gspro_port is Some),
    {
        self.gspro_enabled.is_some() || self.gspro_host.is_some() || self.gspro_port.is_some()
    }

    /// Whether the update names an Infinite Tees setting.
    pub fn touches_infinite_tees(&self) -> (r: bool)
        ensures
            r == (self.infinite_tees_enabled is Some || self.infinite_tees_host is Some
                || self.infinite_tees_port is Some),
    {
        self.infinite_tees_enabled.is_some() || self.infinite_tees_host.is_some()
            || self.infinite_tees_port.is_some()
    }

    /// Whether the update names a SquareLaunch setting.
    pub fn touches_squarelaunch(&self) -> (r: bool)
        ensures
            r == (self.squarelaunch_enabled is Some || self.squarelaunch_ws_host is Some
                || self.squarelaunch_ws_port is Some),
    {
        self.squarelaunch_enabled.is_some() || self.squarelaunch_ws_host.is_some()
            || self.squarelaunch_ws_port.is_some()
    }
}

/// A request to connect the launch monitor: optionally by name and address,
/// or to the built-in emulator.
#[derive(Debug, Clone, PartialEq, Eq)]
pub struct DeviceConnectRequest {
    pub device_name: Option<String>,
    pub device_address: Option<String>,
    pub emulator: bool,
}

impl DeviceConnectRequest {
    /// An empty request: any SquareGolf device, no emulator.
    pub fn empty() -> (r: Self)
        ensures
            r.device_name is None && r.device_address is None && !r.emulator,
    {
        DeviceConnectRequest { device_name: None, device_address: None, emulator: false }
    }

    pub fn into_options(self) -> (r: DeviceConnectOptions)
        ensures
            r.device_name == self.device_name,
            r.device_address == self.device_address,
            r.emulator == self.emulator,
    {
        DeviceConnectOptions {
            device_name: self.device_name,
            device_address: self.device_address,
            emulator: self.emulator,
        }
    }
}

/// The ports tried for the API, in order: the preferred port and the next
/// 99, stopping at 65535.
pub open spec fn port_candidates(preferred: u16) -> Seq<u16> {
    let n: int = if preferred + 100 <= 65536 {
        100
    } else {
        65536 - preferred
    };
    Seq::new(n as nat, |k: int| (preferred + k) as u16)
}

pub fn api_port_candidates(preferred: u16) -> (r: Vec<u16>)
    ensures
        r@ == port_candidates(preferred),
{
    let mut r: Vec<u16> = Vec::new();
    let mut offset: u16 = 0;
    while offset < 100
        invariant
            offset <= 100,
            preferred + offset <= 65536,
            r@ == Seq::new(offset as nat, |k: int| (preferred + k) as u16),
        decreases 100 - offset,
    {
        match preferred.checked_add(offset) {
            Some(port) => {
                r.push(port);
                offset = offset + 1;
                assert(r@ =~= Seq::new(offset as nat, |k: int| (preferred + k) as u16));
            },
            None => {
                assert(r@ =~= port_candidates(preferred));
                return r;
            },
        }
        if preferred as u32 + offset as u32 > 65535 {
            assert(r@ =~= port_candidates(preferred));
            return r;
        }
    }
    assert(r@ =~= port_candidates(preferred));
    r
}

/// The report when no candidate port could be bound: the last bind error, or
/// a note that there was no candidate at all.
pub fn bind_failure_message(preferred: u16, last_error: Option<String>) -> (r: String)
    ensures
        r@ == match last_error {
            Some(e) => e@,
            None => "bind API server near port "@ + decimal_text(preferred as nat)
                + ": no candidate ports"@,
        },
{
    match last_error {
        Some(e) => e,
        None => {
            let mut msg = chars_of("bind API server near port ");
            push_decimal(&mut msg, preferred as u64);
            push_str(&mut msg, ": no candidate ports");
            string_from_chars(&msg)
        },
    }
}

} // verus!
