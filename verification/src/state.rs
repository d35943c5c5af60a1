//! Connector state: the status that the API reports and the rules by which
//! configuration changes and device, simulator and SquareLaunch events change
//! it. Events touch connection state, errors and readings; the settings
//! (hosts, ports, switches) change only through a configuration update, and
//! the SquareLaunch endpoint also when discovery finds one.
use vstd::prelude::*;

use crate::api::{ConfigUpdate, UpdateView};
use crate::config::{opt_text, ports_valid, AppConfig, ConfigView};
use crate::protocol::parser::RawBallMetrics;
use crate::text::{chars_of, push_str, string_from_chars, text_of, trim, trim_ws};

verus! {

#[derive(Debug, Clone, Copy, PartialEq, Eq, Structural)]
pub enum ConnectionStatus {
    Disconnected,
    Scanning,
    Connecting,
    Connected,
    Error,
}

/// The last ball the device reported. Speed in hundredths of a metre per
/// second, angles and the spin axis in hundredths of a degree.
#[derive(Debug, Clone, Copy, PartialEq, Eq, Structural)]
pub struct BallMetrics {
    pub speed_mps_x100: i16,
    pub launch_angle_x100: i16,
    pub horizontal_angle_x100: i16,
    pub total_spin_rpm: i16,
    pub spin_axis_x100: i16,
}

#[derive(Debug, Clone, PartialEq, Eq)]
pub struct DeviceStatus {
    pub connection_status: ConnectionStatus,
    pub device_name: Option<String>,
    pub battery_level: Option<u8>,
    pub last_error: Option<String>,
    pub last_ball_metrics: Option<BallMetrics>,
}

#[derive(Debug, Clone, PartialEq, Eq)]
pub struct SimulatorStatus {
    pub enabled: bool,
    pub connection_status: ConnectionStatus,
    pub host: String,
    pub port: u16,
    pub last_error: Option<String>,
    pub last_shot_number: Option<u64>,
}

#[derive(Debug, Clone, PartialEq, Eq)]
pub struct SquareLaunchStatus {
    pub enabled: bool,
    pub connection_status: ConnectionStatus,
    pub host: Option<String>,
    pub port: u16,
    pub last_error: Option<String>,
    pub last_shot_number: Option<u64>,
}

#[derive(Debug, Clone, PartialEq, Eq)]
pub struct AppStatus {
    pub api_port: u16,
    pub device: DeviceStatus,
    pub gspro: SimulatorStatus,
    pub infinite_tees: SimulatorStatus,
    pub squarelaunch: SquareLaunchStatus,
}

// ------------------------------------------------------------------
// Settings held in the status
// ------------------------------------------------------------------

/// The configuration that a status reports.
pub open spec fn status_config(s: AppStatus) -> ConfigView {
    ConfigView {
        api_port: s.api_port,
        gspro_host: s.gspro.host@,
        gspro_port: s.gspro.port,
        gspro_enabled: s.gspro.enabled,
        infinite_tees_host: s.infinite_tees.host@,
        infinite_tees_port: s.infinite_tees.port,
        infinite_tees_enabled: s.infinite_tees.enabled,
        squarelaunch_ws_host: opt_text(s.squarelaunch.host),
        squarelaunch_ws_port: s.squarelaunch.port,
        squarelaunch_enabled: s.squarelaunch.enabled,
    }
}

pub open spec fn port_at_least_one(p: u16) -> u16 {
    if p == 0 {
        1
    } else {
        p
    }
}

/// A simulator host in an update: kept unless the new one is blank.
pub open spec fn updated_host(old: Seq<char>, new: Option<Seq<char>>) -> Seq<char> {
    match new {
        Some(h) => if trim_ws(h).len() > 0 {
            trim_ws(h)
        } else {
            old
        },
        None => old,
    }
}

/// The SquareLaunch host in an update: a blank one clears it.
pub open spec fn updated_optional_host(old: Option<Seq<char>>, new: Option<Seq<char>>) -> Option<Seq<char>> {
    match new {
        Some(h) => if trim_ws(h).len() > 0 {
            Some(trim_ws(h))
        } else {
            None
        },
        None => old,
    }
}

pub open spec fn updated_port(old: u16, new: Option<u16>) -> u16 {
    match new {
        Some(p) => port_at_least_one(p),
        None => old,
    }
}

pub open spec fn updated_flag(old: bool, new: Option<bool>) -> bool {
    match new {
        Some(b) => b,
        None => old,
    }
}

/// The configuration after an update: each setting the update names takes
/// its new value; hosts are trimmed, a blank simulator host is ignored, a
/// blank SquareLaunch host clears it, and a port of 0 becomes 1.
pub open spec fn updated_config(c: ConfigView, u: UpdateView) -> ConfigView {
    ConfigView {
        api_port: c.api_port,
        gspro_host: updated_host(c.gspro_host, u.gspro_host),
        gspro_port: updated_port(c.gspro_port, u.gspro_port),
        gspro_enabled: updated_flag(c.gspro_enabled, u.gspro_enabled),
        infinite_tees_host: updated_host(c.infinite_tees_host, u.infinite_tees_host),
        infinite_tees_port: updated_port(c.infinite_tees_port, u.infinite_tees_port),
        infinite_tees_enabled: updated_flag(c.infinite_tees_enabled, u.infinite_tees_enabled),
        squarelaunch_ws_host: updated_optional_host(c.squarelaunch_ws_host, u.squarelaunch_ws_host),
        squarelaunch_ws_port: updated_port(c.squarelaunch_ws_port, u.squarelaunch_ws_port),
        squarelaunch_enabled: updated_flag(c.squarelaunch_enabled, u.squarelaunch_enabled),
    }
}

fn trimmed_nonblank(h: &String) -> (r: Option<String>)
    ensures
        match r {
            Some(t) => trim_ws(h@).len() > 0 && t@ == trim_ws(h@),
            None => trim_ws(h@).len() == 0,
        },
{
    let t = trim(&chars_of(h.as_str()));
    if t.len() > 0 {
        Some(string_from_chars(&t))
    } else {
        None
    }
}

fn clamp_port(p: u16) -> (r: u16)
    ensures
        r == port_at_least_one(p),
{
    if p == 0 {
        1
    } else {
        p
    }
}

impl SimulatorStatus {
    /// Applies the simulator part of an update.
    pub fn apply_settings(&mut self, enabled: Option<bool>, host: &Option<String>, port: Option<u16>)
        ensures
            final(self).enabled == updated_flag(old(self).enabled, enabled),
            enabled matches Some(b) ==> final(self).enabled == b,
            enabled is None ==> final(self).enabled == old(self).enabled,
            final(self).host@ == updated_host(old(self).host@, opt_text(*host)),
            final(self).port == updated_port(old(self).port, port),
            final(self).connection_status == old(self).connection_status,
            final(self).last_error == old(self).last_error,
            final(self).last_shot_number == old(self).last_shot_number,
    {
        if let Some(e) = enabled {
            self.enabled = e;
        }
        if let Some(h) = host {
            if let Some(t) = trimmed_nonblank(h) {
                self.host = t;
            }
        }
        if let Some(p) = port {
            self.port = clamp_port(p);
        }
    }

    /// A connection attempt starts.
    pub fn mark_connecting(&mut self)
        ensures
            *final(self) == (SimulatorStatus {
                connection_status: ConnectionStatus::Connecting,
                last_error: None,
                ..*old(self)
            }),
    {
        self.connection_status = ConnectionStatus::Connecting;
        self.last_error = None;
    }

    /// The simulator accepted the connection.
    pub fn mark_connected(&mut self)
        ensures
            *final(self) == (SimulatorStatus {
                connection_status: ConnectionStatus::Connected,
                last_error: None,
                ..*old(self)
            }),
    {
        self.connection_status = ConnectionStatus::Connected;
        self.last_error = None;
    }

    /// Connecting or sending failed with `err`.
    pub fn mark_failed(&mut self, err: String)
        ensures
            *final(self) == (SimulatorStatus {
                connection_status: ConnectionStatus::Error,
                last_error: Some(err),
                ..*old(self)
            }),
    {
        self.connection_status = ConnectionStatus::Error;
        self.last_error = Some(err);
    }

    /// The connection was closed by the user.
    pub fn mark_disconnected(&mut self)
        ensures
            *final(self) == (SimulatorStatus {
                connection_status: ConnectionStatus::Disconnected,
                ..*old(self)
            }),
    {
        self.connection_status = ConnectionStatus::Disconnected;
    }

    /// Shot `shot_number` reached the simulator.
    pub fn record_shot(&mut self, shot_number: u64)
        ensures
            *final(self) == (SimulatorStatus {
                last_shot_number: Some(shot_number),
                last_error: None,
                ..*old(self)
            }),
    {
        self.last_shot_number = Some(shot_number);
        self.last_error = None;
    }
}

impl SquareLaunchStatus {
    /// Applies the SquareLaunch part of an update.
    pub fn apply_settings(&mut self, enabled: Option<bool>, host: &Option<String>, port: Option<u16>)
        ensures
            final(self).enabled == updated_flag(old(self).enabled, enabled),
            enabled matches Some(b) ==> final(self).enabled == b,
            enabled is None ==> final(self).enabled == old(self).enabled,
            opt_text(final(self).host) == updated_optional_host(opt_text(old(self).host), opt_text(*host)),
            final(self).port == updated_port(old(self).port, port),
            final(self).connection_status == old(self).connection_status,
            final(self).last_error == old(self).last_error,
            final(self).last_shot_number == old(self).last_shot_number,
    {
        if let Some(e) = enabled {
            self.enabled = e;
        }
        if let Some(h) = host {
            self.host = trimmed_nonblank(h);
        }
        if let Some(p) = port {
            self.port = clamp_port(p);
        }
    }

    /// Looking for the service on the network.
    pub fn mark_scanning(&mut self)
        ensures
            *final(self) == (SquareLaunchStatus {
                connection_status: ConnectionStatus::Scanning,
                last_error: None,
                ..*old(self)
            }),
    {
        self.connection_status = ConnectionStatus::Scanning;
        self.last_error = None;
    }

    /// The service was found at `host:port`; it becomes the endpoint.
    pub fn record_discovery(&mut self, host: String, port: u16)
        ensures
            *final(self) == (SquareLaunchStatus {
                host: Some(host),
                port,
                last_error: None,
                ..*old(self)
            }),
    {
        self.host = Some(host);
        self.port = port;
        self.last_error = None;
    }

    pub fn mark_connecting(&mut self)
        ensures
            *final(self) == (SquareLaunchStatus {
                connection_status: ConnectionStatus::Connecting,
                last_error: None,
                ..*old(self)
            }),
    {
        self.connection_status = ConnectionStatus::Connecting;
        self.last_error = None;
    }

    pub fn mark_connected(&mut self)
        ensures
            *final(self) == (SquareLaunchStatus {
                connection_status: ConnectionStatus::Connected,
                last_error: None,
                ..*old(self)
            }),
    {
        self.connection_status = ConnectionStatus::Connected;
        self.last_error = None;
    }

    /// Discovery or connecting failed with `err`.
    pub fn mark_failed(&mut self, err: String)
        ensures
            *final(self) == (SquareLaunchStatus {
                connection_status: ConnectionStatus::Error,
                last_error: Some(err),
                ..*old(self)
            }),
    {
        self.connection_status = ConnectionStatus::Error;
        self.last_error = Some(err);
    }

    /// The WebSocket could not be opened; `detail` is the connection error.
    pub fn mark_connect_failed(&mut self, detail: &str)
        ensures
            final(self).connection_status == ConnectionStatus::Error,
            final(self).last_error matches Some(e) && e@
                == "SquareLaunch websocket connect failed: "@ + detail@,
            final(self).enabled == old(self).enabled,
            final(self).host == old(self).host,
            final(self).port == old(self).port,
            final(self).last_shot_number == old(self).last_shot_number,
    {
        let mut msg = chars_of("SquareLaunch websocket connect failed: ");
        push_str(&mut msg, detail);
        self.mark_failed(string_from_chars(&msg));
    }

    pub fn mark_disconnected(&mut self)
        ensures
            *final(self) == (SquareLaunchStatus {
                connection_status: ConnectionStatus::Disconnected,
                ..*old(self)
            }),
    {
        self.connection_status = ConnectionStatus::Disconnected;
    }

    /// A shot message arrived.
    pub fn record_shot(&mut self, shot_number: u64)
        ensures
            *final(self) == (SquareLaunchStatus {
                last_shot_number: Some(shot_number),
                last_error: None,
                ..*old(self)
            }),
    {
        self.last_shot_number = Some(shot_number);
        self.last_error = None;
    }

    /// A message of unknown type arrived; `kind` is its type as quoted text.
    pub fn record_ignored_message(&mut self, kind: &str)
        ensures
            final(self).last_error matches Some(e) && e@
                == "ignored unknown SquareLaunch message "@ + kind@,
            final(self).connection_status == old(self).connection_status,
            final(self).enabled == old(self).enabled,
            final(self).host == old(self).host,
            final(self).port == old(self).port,
            final(self).last_shot_number == old(self).last_shot_number,
    {
        let mut msg = chars_of("ignored unknown SquareLaunch message ");
        push_str(&mut msg, kind);
        self.last_error = Some(string_from_chars(&msg));
    }

    /// A message could not be read as a SquareLaunch message.
    pub fn record_message_error(&mut self, err: String)
        ensures
            *final(self) == (SquareLaunchStatus { last_error: Some(err), ..*old(self) }),
    {
        self.last_error = Some(err);
    }

    /// Reading from the WebSocket failed; `detail` is the read error.
    pub fn record_read_failure(&mut self, detail: &str)
        ensures
            final(self).last_error matches Some(e) && e@
                == "SquareLaunch websocket read failed: "@ + detail@,
            final(self).connection_status == old(self).connection_status,
            final(self).enabled == old(self).enabled,
            final(self).host == old(self).host,
            final(self).port == old(self).port,
            final(self).last_shot_number == old(self).last_shot_number,
    {
        let mut msg = chars_of("SquareLaunch websocket read failed: ");
        push_str(&mut msg, detail);
        self.last_error = Some(string_from_chars(&msg));
    }
}

/// The ball figures the status keeps from a decoded ball frame.
pub open spec fn ball_summary(m: RawBallMetrics) -> BallMetrics {
    BallMetrics {
        speed_mps_x100: m.ball_speed_mps_x100,
        launch_angle_x100: m.vertical_angle_x100,
        horizontal_angle_x100: m.horizontal_angle_x100,
        total_spin_rpm: m.total_spin_rpm,
        spin_axis_x100: m.spin_axis_x100,
    }
}

impl DeviceStatus {
    /// Connected to the built-in emulator, under `name` or
    /// `SquareGolf Emulator`, with a full battery.
    pub fn mark_emulator_connected(&mut self, name: Option<String>)
        ensures
            final(self).connection_status == ConnectionStatus::Connected,
            final(self).device_name matches Some(n) && n@ == match name {
                Some(given) => given@,
                None => "SquareGolf Emulator"@,
            },
            final(self).battery_level == Some(100u8),
            final(self).last_error is None,
            final(self).last_ball_metrics == old(self).last_ball_metrics,
    {
        self.connection_status = ConnectionStatus::Connected;
        self.device_name = Some(
            match name {
                Some(n) => n,
                None => text_of("SquareGolf Emulator"),
            },
        );
        self.battery_level = Some(100);
        self.last_error = None;
    }

    pub fn mark_scanning(&mut self)
        ensures
            *final(self) == (DeviceStatus {
                connection_status: ConnectionStatus::Scanning,
                last_error: None,
                ..*old(self)
            }),
    {
        self.connection_status = ConnectionStatus::Scanning;
        self.last_error = None;
    }

    pub fn mark_connecting(&mut self)
        ensures
            *final(self) == (DeviceStatus {
                connection_status: ConnectionStatus::Connecting,
                ..*old(self)
            }),
    {
        self.connection_status = ConnectionStatus::Connecting;
    }

    /// Connected to the device called `name`.
    pub fn mark_connected(&mut self, name: String)
        ensures
            *final(self) == (DeviceStatus {
                connection_status: ConnectionStatus::Connected,
                device_name: Some(name),
                last_error: None,
                ..*old(self)
            }),
    {
        self.connection_status = ConnectionStatus::Connected;
        self.device_name = Some(name);
        self.last_error = None;
    }

    pub fn mark_failed(&mut self, err: String)
        ensures
            *final(self) == (DeviceStatus {
                connection_status: ConnectionStatus::Error,
                last_error: Some(err),
                ..*old(self)
            }),
    {
        self.connection_status = ConnectionStatus::Error;
        self.last_error = Some(err);
    }

    /// The device went away on its own.
    pub fn mark_connection_lost(&mut self)
        ensures
            *final(self) == (DeviceStatus {
                connection_status: ConnectionStatus::Disconnected,
                ..*old(self)
            }),
    {
        self.connection_status = ConnectionStatus::Disconnected;
    }

    /// The user disconnected: the device's name and battery are forgotten.
    pub fn mark_disconnected(&mut self)
        ensures
            *final(self) == (DeviceStatus {
                connection_status: ConnectionStatus::Disconnected,
                device_name: None,
                battery_level: None,
                ..*old(self)
            }),
    {
        self.connection_status = ConnectionStatus::Disconnected;
        self.device_name = None;
        self.battery_level = None;
    }

    /// A battery reading: its first byte is the level; an empty reading
    /// changes nothing.
    pub fn record_battery(&mut self, value: &[u8])
        ensures
            *final(self) == if value@.len() > 0 {
                DeviceStatus { battery_level: Some(value@[0]), ..*old(self) }
            } else {
                *old(self)
            },
    {
        if value.len() > 0 {
            self.battery_level = Some(value[0]);
        }
    }

    /// Handling a notification failed: `context: err` becomes the last error.
    pub fn record_error(&mut self, context: &str, err: &str)
        ensures
            final(self).last_error matches Some(e) && e@ == context@ + ": "@ + err@,
            final(self).connection_status == old(self).connection_status,
            final(self).device_name == old(self).device_name,
            final(self).battery_level == old(self).battery_level,
            final(self).last_ball_metrics == old(self).last_ball_metrics,
    {
        let mut msg = chars_of(context);
        push_str(&mut msg, ": ");
        push_str(&mut msg, err);
        self.last_error = Some(string_from_chars(&msg));
    }

    /// Keeps the figures of the last ball.
    pub fn record_ball(&mut self, metrics: &RawBallMetrics)
        ensures
            *final(self) == (DeviceStatus {
                last_ball_metrics: Some(ball_summary(*metrics)),
                ..*old(self)
            }),
    {
        self.last_ball_metrics = Some(
            BallMetrics {
                speed_mps_x100: metrics.ball_speed_mps_x100,
                launch_angle_x100: metrics.vertical_angle_x100,
                horizontal_angle_x100: metrics.horizontal_angle_x100,
                total_spin_rpm: metrics.total_spin_rpm,
                spin_axis_x100: metrics.spin_axis_x100,
            },
        );
    }
}

fn copy_text(s: &String) -> (r: String)
    ensures
        r@ == s@,
{
    string_from_chars(&chars_of(s.as_str()))
}

fn copy_optional_text(s: &Option<String>) -> (r: Option<String>)
    ensures
        opt_text(r) == opt_text(*s),
{
    match s {
        Some(t) => Some(copy_text(t)),
        None => None,
    }
}

fn fresh_simulator(enabled: bool, host: &String, port: u16) -> (r: SimulatorStatus)
    ensures
        r.enabled == enabled && r.host@ == host@ && r.port == port,
        r.connection_status == ConnectionStatus::Disconnected,
        r.last_error is None && r.last_shot_number is None,
{
    SimulatorStatus {
        enabled,
        connection_status: ConnectionStatus::Disconnected,
        host: copy_text(host),
        port,
        last_error: None,
        last_shot_number: None,
    }
}

impl AppStatus {
    /// The status of a connector started with `config`: its settings come
    /// from the configuration and nothing is connected.
    pub fn from_config(config: &AppConfig) -> (r: Self)
        ensures
            status_config(r) == config@,
            r.device.connection_status == ConnectionStatus::Disconnected,
            r.device.device_name is None,
            r.device.battery_level is None,
            r.device.last_error is None,
            r.device.last_ball_metrics is None,
            r.gspro.connection_status == ConnectionStatus::Disconnected,
            r.gspro.last_error is None && r.gspro.last_shot_number is None,
            r.infinite_tees.connection_status == ConnectionStatus::Disconnected,
            r.infinite_tees.last_error is None && r.infinite_tees.last_shot_number is None,
            r.squarelaunch.connection_status == ConnectionStatus::Disconnected,
            r.squarelaunch.last_error is None && r.squarelaunch.last_shot_number is None,
    {
        AppStatus {
            api_port: config.api_port,
            device: DeviceStatus {
                connection_status: ConnectionStatus::Disconnected,
                device_name: None,
                battery_level: None,
                last_error: None,
                last_ball_metrics: None,
            },
            gspro: fresh_simulator(config.gspro_enabled, &config.gspro_host, config.gspro_port),
            infinite_tees: fresh_simulator(
                config.infinite_tees_enabled,
                &config.infinite_tees_host,
                config.infinite_tees_port,
            ),
            squarelaunch: SquareLaunchStatus {
                enabled: config.squarelaunch_enabled,
                connection_status: ConnectionStatus::Disconnected,
                host: copy_optional_text(&config.squarelaunch_ws_host),
                port: config.squarelaunch_ws_port,
                last_error: None,
                last_shot_number: None,
            },
        }
    }

    /// The configuration this status reports (what is saved and served).
    pub fn current_config(&self) -> (r: AppConfig)
        ensures
            r@ == status_config(*self),
    {
        AppConfig {
            api_port: self.api_port,
            gspro_host: copy_text(&self.gspro.host),
            gspro_port: self.gspro.port,
            gspro_enabled: self.gspro.enabled,
            infinite_tees_host: copy_text(&self.infinite_tees.host),
            infinite_tees_port: self.infinite_tees.port,
            infinite_tees_enabled: self.infinite_tees.enabled,
            squarelaunch_ws_host: copy_optional_text(&self.squarelaunch.host),
            squarelaunch_ws_port: self.squarelaunch.port,
            squarelaunch_enabled: self.squarelaunch.enabled,
        }
    }

    /// Applies a settings update. Connection state, errors, shot numbers and
    /// the device are left as they were.
    pub fn apply_config_update(&mut self, update: &ConfigUpdate)
        ensures
            status_config(*final(self)) == updated_config(status_config(*old(self)), update@),
            final(self).device == old(self).device,
            final(self).gspro.connection_status == old(self).gspro.connection_status,
            final(self).gspro.last_error == old(self).gspro.last_error,
            final(self).gspro.last_shot_number == old(self).gspro.last_shot_number,
            final(self).infinite_tees.connection_status == old(self).infinite_tees.connection_status,
            final(self).infinite_tees.last_error == old(self).infinite_tees.last_error,
            final(self).infinite_tees.last_shot_number == old(self).infinite_tees.last_shot_number,
            final(self).squarelaunch.connection_status == old(self).squarelaunch.connection_status,
            final(self).squarelaunch.last_error == old(self).squarelaunch.last_error,
            final(self).squarelaunch.last_shot_number == old(self).squarelaunch.last_shot_number,
    {
        if update.touches_gspro() {
            self.gspro.apply_settings(update.gspro_enabled, &update.gspro_host, update.gspro_port);
        }
        if update.touches_infinite_tees() {
            self.infinite_tees.apply_settings(
                update.infinite_tees_enabled,
                &update.infinite_tees_host,
                update.infinite_tees_port,
            );
        }
        self.squarelaunch.apply_settings(
            update.squarelaunch_enabled,
            &update.squarelaunch_ws_host,
            update.squarelaunch_ws_port,
        );
    }
}

// ------------------------------------------------------------------
// Laws
// ------------------------------------------------------------------

/// An update that names no setting.
pub open spec fn no_update() -> UpdateView {
    UpdateView {
        gspro_enabled: None,
        gspro_host: None,
        gspro_port: None,
        infinite_tees_enabled: None,
        infinite_tees_host: None,
        infinite_tees_port: None,
        squarelaunch_enabled: None,
        squarelaunch_ws_host: None,
        squarelaunch_ws_port: None,
    }
}

/// An update that names no setting leaves the configuration as it was.
pub proof fn law_empty_update_changes_nothing(c: ConfigView)
    ensures
        updated_config(c, no_update()) == c,
{
}

/// Sending the same update twice has the effect of sending it once.
pub proof fn law_update_is_idempotent(c: ConfigView, u: UpdateView)
    ensures
        updated_config(updated_config(c, u), u) == updated_config(c, u),
{
}

/// An update never changes the API port, each port it names ends up
/// non-zero, and a configuration whose ports are valid keeps them valid.
pub proof fn law_update_keeps_api_port_and_valid_ports(c: ConfigView, u: UpdateView)
    ensures
        updated_config(c, u).api_port == c.api_port,
        ports_valid(c) ==> ports_valid(updated_config(c, u)),
        u.gspro_port is Some ==> updated_config(c, u).gspro_port >= 1,
        u.infinite_tees_port is Some ==> updated_config(c, u).infinite_tees_port >= 1,
        u.squarelaunch_ws_port is Some ==> updated_config(c, u).squarelaunch_ws_port >= 1,
{
}

/// An update sets exactly what it names: a switch it names takes the named
/// value (on or off, whatever it was), a port it names takes that port (0
/// read as 1), a non-blank host it names takes that host trimmed, and a
/// blank SquareLaunch host clears it; whatever it does not name keeps its
/// value.
pub proof fn law_update_sets_what_it_names(c: ConfigView, u: UpdateView)
    ensures
        ({
            let r = updated_config(c, u);
            &&& u.gspro_enabled matches Some(b) ==> r.gspro_enabled == b
            &&& u.infinite_tees_enabled matches Some(b) ==> r.infinite_tees_enabled == b
            &&& u.squarelaunch_enabled matches Some(b) ==> r.squarelaunch_enabled == b
            &&& u.gspro_enabled is None ==> r.gspro_enabled == c.gspro_enabled
            &&& u.infinite_tees_enabled is None ==> r.infinite_tees_enabled == c.infinite_tees_enabled
            &&& u.squarelaunch_enabled is None ==> r.squarelaunch_enabled == c.squarelaunch_enabled
            &&& u.gspro_port matches Some(p) ==> r.gspro_port == (if p == 0 { 1 } else { p })
            &&& u.infinite_tees_port matches Some(p) ==> r.infinite_tees_port == (if p == 0 { 1 } else { p })
            &&& u.squarelaunch_ws_port matches Some(p) ==> r.squarelaunch_ws_port == (if p == 0 { 1 } else { p })
            &&& u.gspro_port is None ==> r.gspro_port == c.gspro_port
            &&& u.infinite_tees_port is None ==> r.infinite_tees_port == c.infinite_tees_port
            &&& u.squarelaunch_ws_port is None ==> r.squarelaunch_ws_port == c.squarelaunch_ws_port
            &&& u.gspro_host matches Some(h) ==> r.gspro_host == (if trim_ws(h).len() > 0 { trim_ws(h) } else { c.gspro_host })
            &&& u.infinite_tees_host matches Some(h) ==> r.infinite_tees_host == (if trim_ws(h).len() > 0 { trim_ws(h) } else { c.infinite_tees_host })
            &&& u.squarelaunch_ws_host matches Some(h) ==> r.squarelaunch_ws_host == (if trim_ws(h).len() > 0 { Some(trim_ws(h)) } else { None })
            &&& u.gspro_host is None ==> r.gspro_host == c.gspro_host
            &&& u.infinite_tees_host is None ==> r.infinite_tees_host == c.infinite_tees_host
            &&& u.squarelaunch_ws_host is None ==> r.squarelaunch_ws_host == c.squarelaunch_ws_host
        }),
{
}

} // verus!
