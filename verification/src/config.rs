//! Connector configuration: defaults, overrides from the environment and the
//! command line, and the settings read back from a saved configuration file.
use vstd::prelude::*;

use crate::json::{
    fields_view, json_object_fields, parse_json_object_fields, FieldView, JsonField, JsonScalar,
    ScalarView,
};
use crate::text::{
    chars_of, copy_range, has_prefix, lower_text, parse_unsigned, push_str, same_text, starts_with,
    string_from_chars, text_of, texts_of, to_lower, trim, trim_ws, unsigned_text,
};

verus! {

pub const DEFAULT_API_PORT: u16 = 8080;

pub const DEFAULT_SQUARELAUNCH_WS_PORT: u16 = 2920;

#[derive(Debug, Clone, PartialEq, Eq)]
pub struct AppConfig {
    pub api_port: u16,
    pub gspro_host: String,
    pub gspro_port: u16,
    pub gspro_enabled: bool,
    pub infinite_tees_host: String,
    pub infinite_tees_port: u16,
    pub infinite_tees_enabled: bool,
    pub squarelaunch_ws_host: Option<String>,
    pub squarelaunch_ws_port: u16,
    pub squarelaunch_enabled: bool,
}

/// The configuration as plain values.
pub struct ConfigView {
    pub api_port: u16,
    pub gspro_host: Seq<char>,
    pub gspro_port: u16,
    pub gspro_enabled: bool,
    pub infinite_tees_host: Seq<char>,
    pub infinite_tees_port: u16,
    pub infinite_tees_enabled: bool,
    pub squarelaunch_ws_host: Option<Seq<char>>,
    pub squarelaunch_ws_port: u16,
    pub squarelaunch_enabled: bool,
}

pub open spec fn opt_text(o: Option<String>) -> Option<Seq<char>> {
    match o {
        Some(s) => Some(s@),
        None => None,
    }
}

impl View for AppConfig {
    type V = ConfigView;

    open spec fn view(&self) -> ConfigView {
        ConfigView {
            api_port: self.api_port,
            gspro_host: self.gspro_host@,
            gspro_port: self.gspro_port,
            gspro_enabled: self.gspro_enabled,
            infinite_tees_host: self.infinite_tees_host@,
            infinite_tees_port: self.infinite_tees_port,
            infinite_tees_enabled: self.infinite_tees_enabled,
            squarelaunch_ws_host: opt_text(self.squarelaunch_ws_host),
            squarelaunch_ws_port: self.squarelaunch_ws_port,
            squarelaunch_enabled: self.squarelaunch_enabled,
        }
    }
}

/// The built-in configuration: API on 8080, both simulators on the local
/// host (GSPro 921, Infinite Tees 999) and disabled, SquareLaunch disabled on
/// port 2920 with no host.
pub open spec fn default_config() -> ConfigView {
    ConfigView {
        api_port: 8080,
        gspro_host: "127.0.0.1"@,
        gspro_port: 921,
        gspro_enabled: false,
        infinite_tees_host: "127.0.0.1"@,
        infinite_tees_port: 999,
        infinite_tees_enabled: false,
        squarelaunch_ws_host: None,
        squarelaunch_ws_port: 2920,
        squarelaunch_enabled: false,
    }
}

impl Default for AppConfig {
    fn default() -> (r: Self)
        ensures
            r@ == default_config(),
    {
        AppConfig {
            api_port: DEFAULT_API_PORT,
            gspro_host: text_of("127.0.0.1"),
            gspro_port: 921,
            gspro_enabled: false,
            infinite_tees_host: text_of("127.0.0.1"),
            infinite_tees_port: 999,
            infinite_tees_enabled: false,
            squarelaunch_ws_host: None,
            squarelaunch_ws_port: DEFAULT_SQUARELAUNCH_WS_PORT,
            squarelaunch_enabled: false,
        }
    }
}

pub open spec fn config_result(r: Result<AppConfig, String>) -> Result<ConfigView, Seq<char>> {
    match r {
        Ok(c) => Ok(c@),
        Err(e) => Err(e@),
    }
}

// ------------------------------------------------------------------
// Value rules
// ------------------------------------------------------------------

/// A port value: trimmed, a decimal `u32`, then within 1..=65535.
pub open spec fn port_value(value: Seq<char>, label: Seq<char>) -> Result<u16, Seq<char>> {
    match unsigned_text(trim_ws(value), 10, 0xffff_ffff) {
        None => Err(label + " must be an integer from 1 to 65535"@),
        Some(n) => if n == 0 || n > 65535 {
            Err(label + " must be from 1 to 65535"@)
        } else {
            Ok(n as u16)
        },
    }
}

/// A switch value: off when, trimmed and ASCII lower-cased, it is empty,
/// `0`, `false`, `off` or `no`; on otherwise.
pub open spec fn truthy(value: Seq<char>) -> bool {
    let v = lower_text(trim_ws(value));
    !(v.len() == 0 || v == "0"@ || v == "false"@ || v == "off"@ || v == "no"@)
}

pub fn parse_port(value: &str, label: &str) -> (r: Result<u16, String>)
    ensures
        match r {
            Ok(p) => port_value(value@, label@) == Ok::<u16, Seq<char>>(p),
            Err(e) => port_value(value@, label@) == Err::<u16, Seq<char>>(e@),
        },
{
    let t = trim(&chars_of(value));
    match parse_unsigned(&t, 10, 0xffff_ffff) {
        None => {
            let mut msg = chars_of(label);
            push_str(&mut msg, " must be an integer from 1 to 65535");
            Err(string_from_chars(&msg))
        },
        Some(n) => {
            if n == 0 || n > 65535 {
                let mut msg = chars_of(label);
                push_str(&mut msg, " must be from 1 to 65535");
                Err(string_from_chars(&msg))
            } else {
                Ok(n as u16)
            }
        },
    }
}

pub fn env_truthy(value: &str) -> (r: bool)
    ensures
        r == truthy(value@),
{
    let v = to_lower(&trim(&chars_of(value)));
    !(v.len() == 0 || same_text(&v, &chars_of("0")) || same_text(&v, &chars_of("false"))
        || same_text(&v, &chars_of("off")) || same_text(&v, &chars_of("no")))
}

// ------------------------------------------------------------------
// Environment
// ------------------------------------------------------------------

/// The value of the first entry named `key`.
pub open spec fn env_lookup(env: Seq<(&str, &str)>, key: Seq<char>) -> Option<Seq<char>>
    decreases env.len(),
{
    if env.len() == 0 {
        None
    } else if env[0].0@ == key {
        Some(env[0].1@)
    } else {
        env_lookup(env.drop_first(), key)
    }
}

pub fn env_value<'a>(env: &[(&'a str, &'a str)], key: &str) -> (r: Option<&'a str>)
    ensures
        match r {
            Some(v) => env_lookup(env@, key@) == Some(v@),
            None => env_lookup(env@, key@) is None,
        },
{
    let k = chars_of(key);
    let mut i: usize = 0;
    assert(env@.subrange(0, env@.len() as int) =~= env@);
    while i < env.len()
        invariant
            i <= env.len(),
            k@ == key@,
            env_lookup(env@, key@) == env_lookup(env@.subrange(i as int, env@.len() as int), key@),
        decreases env.len() - i,
    {
        let (name, value) = env[i];
        let ghost rest = env@.subrange(i as int, env@.len() as int);
        assert(rest.drop_first() =~= env@.subrange(i + 1, env@.len() as int));
        assert(rest[0] == env@[i as int]);
        if same_text(&chars_of(name), &k) {
            return Some(value);
        }
        i = i + 1;
    }
    None
}

pub open spec fn env_port(env: Seq<(&str, &str)>, key: Seq<char>, label: Seq<char>) -> Option<
    Result<u16, Seq<char>>,
> {
    match env_lookup(env, key) {
        Some(v) => Some(port_value(v, label)),
        None => None,
    }
}

pub open spec fn port_or(p: Option<Result<u16, Seq<char>>>, d: u16) -> u16 {
    match p {
        Some(Ok(v)) => v,
        _ => d,
    }
}

pub open spec fn flag_or(env: Seq<(&str, &str)>, key: Seq<char>, d: bool) -> bool {
    match env_lookup(env, key) {
        Some(v) => truthy(v),
        None => d,
    }
}

pub open spec fn host_or(env: Seq<(&str, &str)>, key: Seq<char>, d: Seq<char>) -> Seq<char> {
    match env_lookup(env, key) {
        Some(v) => trim_ws(v),
        None => d,
    }
}

/// Overrides from the environment. Each variable that is present sets its
/// field: `SQUAREGOLF_API_PORT`, `SQUARELAUNCH_WS_HOST` (only when not blank),
/// `SQUARELAUNCH_WS_PORT`, `SQUARELAUNCH_WS`, `GSPRO_HOST`, `GSPRO_PORT`,
/// `GSPRO_ENABLED`, `INFINITE_TEES_HOST`, `INFINITE_TEES_PORT` and
/// `INFINITE_TEES_ENABLED`. The first malformed port, in that order, is the
/// error.
pub open spec fn env_config(c: ConfigView, env: Seq<(&str, &str)>) -> Result<ConfigView, Seq<char>> {
    let api = env_port(env, "SQUAREGOLF_API_PORT"@, "api port"@);
    let slp = env_port(env, "SQUARELAUNCH_WS_PORT"@, "SquareLaunch websocket port"@);
    let gp = env_port(env, "GSPRO_PORT"@, "GSPro port"@);
    let ip = env_port(env, "INFINITE_TEES_PORT"@, "Infinite Tees port"@);
    if let Some(Err(e)) = api {
        Err(e)
    } else if let Some(Err(e)) = slp {
        Err(e)
    } else if let Some(Err(e)) = gp {
        Err(e)
    } else if let Some(Err(e)) = ip {
        Err(e)
    } else {
        Ok(
            ConfigView {
                api_port: port_or(api, c.api_port),
                squarelaunch_ws_host: match env_lookup(env, "SQUARELAUNCH_WS_HOST"@) {
                    Some(v) => if trim_ws(v).len() > 0 {
                        Some(trim_ws(v))
                    } else {
                        c.squarelaunch_ws_host
                    },
                    None => c.squarelaunch_ws_host,
                },
                squarelaunch_ws_port: port_or(slp, c.squarelaunch_ws_port),
                squarelaunch_enabled: flag_or(env, "SQUARELAUNCH_WS"@, c.squarelaunch_enabled),
                gspro_host: host_or(env, "GSPRO_HOST"@, c.gspro_host),
                gspro_port: port_or(gp, c.gspro_port),
                gspro_enabled: flag_or(env, "GSPRO_ENABLED"@, c.gspro_enabled),
                infinite_tees_host: host_or(env, "INFINITE_TEES_HOST"@, c.infinite_tees_host),
                infinite_tees_port: port_or(ip, c.infinite_tees_port),
                infinite_tees_enabled: flag_or(env, "INFINITE_TEES_ENABLED"@, c.infinite_tees_enabled),
            },
        )
    }
}

fn env_port_exec(port: &mut u16, env: &[(&str, &str)], key: &str, label: &str) -> (r: Result<
    (),
    String,
>)
    ensures
        match env_port(env@, key@, label@) {
            None => r is Ok && *final(port) == *old(port),
            Some(Ok(p)) => r is Ok && *final(port) == p,
            Some(Err(e)) => r matches Err(x) && x@ == e,
        },
{
    match env_value(env, key) {
        None => Ok(()),
        Some(v) => match parse_port(v, label) {
            Ok(p) => {
                *port = p;
                Ok(())
            },
            Err(e) => Err(e),
        },
    }
}

fn env_flag_exec(flag: &mut bool, env: &[(&str, &str)], key: &str)
    ensures
        *final(flag) == flag_or(env@, key@, *old(flag)),
{
    if let Some(v) = env_value(env, key) {
        *flag = env_truthy(v);
    }
}

fn env_host_exec(host: &mut String, env: &[(&str, &str)], key: &str)
    ensures
        final(host)@ == host_or(env@, key@, old(host)@),
{
    if let Some(v) = env_value(env, key) {
        *host = string_from_chars(&trim(&chars_of(v)));
    }
}

fn apply_env(config: &mut AppConfig, env: &[(&str, &str)]) -> (r: Result<(), String>)
    ensures
        match env_config(old(config)@, env@) {
            Ok(c) => r is Ok && final(config)@ == c,
            Err(e) => r matches Err(x) && x@ == e,
        },
{
    let ghost c0 = config@;
    env_port_exec(&mut config.api_port, env, "SQUAREGOLF_API_PORT", "api port")?;
    if let Some(host) = env_value(env, "SQUARELAUNCH_WS_HOST") {
        let t = trim(&chars_of(host));
        if t.len() > 0 {
            config.squarelaunch_ws_host = Some(string_from_chars(&t));
        }
    }
    env_port_exec(
        &mut config.squarelaunch_ws_port,
        env,
        "SQUARELAUNCH_WS_PORT",
        "SquareLaunch websocket port",
    )?;
    env_flag_exec(&mut config.squarelaunch_enabled, env, "SQUARELAUNCH_WS");
    env_host_exec(&mut config.gspro_host, env, "GSPRO_HOST");
    env_port_exec(&mut config.gspro_port, env, "GSPRO_PORT", "GSPro port")?;
    env_flag_exec(&mut config.gspro_enabled, env, "GSPRO_ENABLED");
    env_host_exec(&mut config.infinite_tees_host, env, "INFINITE_TEES_HOST");
    env_port_exec(&mut config.infinite_tees_port, env, "INFINITE_TEES_PORT", "Infinite Tees port")?;
    env_flag_exec(&mut config.infinite_tees_enabled, env, "INFINITE_TEES_ENABLED");
    assert(config@ == env_config(c0, env@)->Ok_0);
    Ok(())
}

// ------------------------------------------------------------------
// Command line
// ------------------------------------------------------------------

pub open spec fn needs_value(flag: Seq<char>) -> Seq<char> {
    flag + " requires a value"@
}

/// The effect of the argument at `i`: the new configuration and whether the
/// next argument was taken as its value, or the error it raises.
pub open spec fn arg_step(c: ConfigView, args: Seq<&str>, i: int) -> Result<(ConfigView, bool), Seq<char>> {
    let a = args[i]@;
    let has_value = i + 1 < args.len();
    let v = args[i + 1]@;
    if a == "--api-port"@ {
        if !has_value {
            Err(needs_value(a))
        } else {
            match port_value(v, "api port"@) {
                Ok(p) => Ok((ConfigView { api_port: p, ..c }, true)),
                Err(e) => Err(e),
            }
        }
    } else if a == "--squarelaunch-ws-host"@ {
        if !has_value {
            Err(needs_value(a))
        } else {
            let t = trim_ws(v);
            Ok(
                (
                    ConfigView {
                        squarelaunch_ws_host: if t.len() > 0 {
                            Some(t)
                        } else {
                            None
                        },
                        ..c
                    },
                    true,
                ),
            )
        }
    } else if a == "--squarelaunch-ws-port"@ {
        if !has_value {
            Err(needs_value(a))
        } else {
            match port_value(v, "SquareLaunch websocket port"@) {
                Ok(p) => Ok((ConfigView { squarelaunch_ws_port: p, ..c }, true)),
                Err(e) => Err(e),
            }
        }
    } else if a == "--enable-squarelaunch-ws"@ {
        Ok((ConfigView { squarelaunch_enabled: true, ..c }, false))
    } else if a == "--disable-squarelaunch-ws"@ {
        Ok((ConfigView { squarelaunch_enabled: false, ..c }, false))
    } else if a == "--gspro-host"@ {
        if !has_value {
            Err(needs_value(a))
        } else {
            Ok((ConfigView { gspro_host: trim_ws(v), ..c }, true))
        }
    } else if a == "--gspro-port"@ {
        if !has_value {
            Err(needs_value(a))
        } else {
            match port_value(v, "GSPro port"@) {
                Ok(p) => Ok((ConfigView { gspro_port: p, ..c }, true)),
                Err(e) => Err(e),
            }
        }
    } else if a == "--enable-gspro"@ {
        Ok((ConfigView { gspro_enabled: true, ..c }, false))
    } else if a == "--disable-gspro"@ {
        Ok((ConfigView { gspro_enabled: false, ..c }, false))
    } else if a == "--it-host"@ {
        if !has_value {
            Err(needs_value(a))
        } else {
            Ok((ConfigView { infinite_tees_host: trim_ws(v), ..c }, true))
        }
    } else if a == "--it-port"@ {
        if !has_value {
            Err(needs_value(a))
        } else {
            match port_value(v, "Infinite Tees port"@) {
                Ok(p) => Ok((ConfigView { infinite_tees_port: p, ..c }, true)),
                Err(e) => Err(e),
            }
        }
    } else if a == "--enable-it"@ {
        Ok((ConfigView { infinite_tees_enabled: true, ..c }, false))
    } else if a == "--disable-it"@ {
        Ok((ConfigView { infinite_tees_enabled: false, ..c }, false))
    } else if has_prefix(a, "--"@) {
        Err("unknown argument "@ + a)
    } else {
        Ok((c, false))
    }
}

/// The arguments from index `i` on, applied left to right; the first error
/// stops the scan.
pub open spec fn args_config(c: ConfigView, args: Seq<&str>, i: int) -> Result<ConfigView, Seq<char>>
    decreases args.len() - i,
{
    if i < 0 || i >= args.len() {
        Ok(c)
    } else {
        match arg_step(c, args, i) {
            Err(e) => Err(e),
            Ok((c2, took)) => args_config(c2, args, if took {
                i + 2
            } else {
                i + 1
            }),
        }
    }
}

/// The configuration for a program invocation: `base`, then the environment,
/// then the command-line arguments after the program name.
pub open spec fn invocation_config(base: ConfigView, args: Seq<&str>, env: Seq<(&str, &str)>) -> Result<
    ConfigView,
    Seq<char>,
> {
    match env_config(base, env) {
        Err(e) => Err(e),
        Ok(c) => args_config(c, args, 1),
    }
}

fn is_flag(a: &Vec<char>, flag: &str) -> (r: bool)
    ensures
        r == (a@ == flag@),
{
    same_text(a, &chars_of(flag))
}

fn missing_value(flag: &Vec<char>) -> (r: String)
    ensures
        r@ == needs_value(flag@),
{
    let mut msg = copy_range(flag, 0, flag.len());
    push_str(&mut msg, " requires a value");
    string_from_chars(&msg)
}

fn arg_step_exec(config: &mut AppConfig, args: &[&str], i: usize) -> (r: Result<bool, String>)
    requires
        i < args@.len(),
    ensures
        match arg_step(old(config)@, args@, i as int) {
            Ok((c, took)) => r == Ok::<bool, String>(took) && final(config)@ == c,
            Err(e) => r matches Err(x) && x@ == e,
        },
{
    let a = chars_of(args[i]);
    let has_value = i + 1 < args.len();
    if is_flag(&a, "--api-port") {
        if !has_value {
            return Err(missing_value(&a));
        }
        config.api_port = parse_port(args[i + 1], "api port")?;
        Ok(true)
    } else if is_flag(&a, "--squarelaunch-ws-host") {
        if !has_value {
            return Err(missing_value(&a));
        }
        let t = trim(&chars_of(args[i + 1]));
        config.squarelaunch_ws_host = if t.len() > 0 {
            Some(string_from_chars(&t))
        } else {
            None
        };
        Ok(true)
    } else if is_flag(&a, "--squarelaunch-ws-port") {
        if !has_value {
            return Err(missing_value(&a));
        }
        config.squarelaunch_ws_port = parse_port(args[i + 1], "SquareLaunch websocket port")?;
        Ok(true)
    } else if is_flag(&a, "--enable-squarelaunch-ws") {
        config.squarelaunch_enabled = true;
        Ok(false)
    } else if is_flag(&a, "--disable-squarelaunch-ws") {
        config.squarelaunch_enabled = false;
        Ok(false)
    } else if is_flag(&a, "--gspro-host") {
        if !has_value {
            return Err(missing_value(&a));
        }
        config.gspro_host = string_from_chars(&trim(&chars_of(args[i + 1])));
        Ok(true)
    } else if is_flag(&a, "--gspro-port") {
        if !has_value {
            return Err(missing_value(&a));
        }
        config.gspro_port = parse_port(args[i + 1], "GSPro port")?;
        Ok(true)
    } else if is_flag(&a, "--enable-gspro") {
        config.gspro_enabled = true;
        Ok(false)
    } else if is_flag(&a, "--disable-gspro") {
        config.gspro_enabled = false;
        Ok(false)
    } else if is_flag(&a, "--it-host") {
        if !has_value {
            return Err(missing_value(&a));
        }
        config.infinite_tees_host = string_from_chars(&trim(&chars_of(args[i + 1])));
        Ok(true)
    } else if is_flag(&a, "--it-port") {
        if !has_value {
            return Err(missing_value(&a));
        }
        config.infinite_tees_port = parse_port(args[i + 1], "Infinite Tees port")?;
        Ok(true)
    } else if is_flag(&a, "--enable-it") {
        config.infinite_tees_enabled = true;
        Ok(false)
    } else if is_flag(&a, "--disable-it") {
        config.infinite_tees_enabled = false;
        Ok(false)
    } else if starts_with(&a, &chars_of("--")) {
        let mut msg = chars_of("unknown argument ");
        let mut rest = copy_range(&a, 0, a.len());
        msg.append(&mut rest);
        Err(string_from_chars(&msg))
    } else {
        Ok(false)
    }
}

impl AppConfig {
    /// The configuration for a program invocation, starting from the defaults.
    pub fn from_iter_and_env(args: &[&str], env: &[(&str, &str)]) -> (r: Result<Self, String>)
        ensures
            config_result(r) == invocation_config(default_config(), args@, env@),
    {
        Self::from_iter_env_and_base(args, env, Self::default())
    }

    /// The configuration for a program invocation: `config`, overridden by
    /// the environment, then by the arguments after the program name.
    pub fn from_iter_env_and_base(args: &[&str], env: &[(&str, &str)], config: Self) -> (r: Result<
        Self,
        String,
    >)
        ensures
            config_result(r) == invocation_config(config@, args@, env@),
    {
        let mut cfg = config;
        apply_env(&mut cfg, env)?;
        let mut i: usize = 1;
        while i < args.len()
            invariant
                1 <= i,
                invocation_config(config@, args@, env@) == args_config(cfg@, args@, i as int),
            decreases args.len() - i,
        {
            let took = arg_step_exec(&mut cfg, args, i)?;
            i = if took && i + 1 < args.len() {
                i + 2
            } else {
                i + 1
            };
        }
        Ok(cfg)
    }
}

// ------------------------------------------------------------------
// Laws of precedence
// ------------------------------------------------------------------

/// With no environment variables set, the environment changes nothing.
pub proof fn law_empty_environment_keeps_base(base: ConfigView)
    ensures
        env_config(base, Seq::empty()) == Ok::<ConfigView, Seq<char>>(base),
{
}

/// Without command-line arguments (only the program name, or nothing), the
/// invocation's configuration is the base with the environment applied.
pub proof fn law_environment_applies_when_cli_omits_arguments(
    base: ConfigView,
    args: Seq<&str>,
    env: Seq<(&str, &str)>,
)
    requires
        args.len() <= 1,
    ensures
        invocation_config(base, args, env) == env_config(base, env),
{
}

/// A command-line `--api-port` wins over the environment: with a valid port
/// on the command line, the API port is that port, whatever
/// `SQUAREGOLF_API_PORT` says, and every other setting is as the
/// environment left it.
pub proof fn law_cli_api_port_overrides_environment(
    base: ConfigView,
    args: Seq<&str>,
    env: Seq<(&str, &str)>,
    port: u16,
)
    requires
        args.len() == 3,
        args[1]@ == "--api-port"@,
        port_value(args[2]@, "api port"@) == Ok::<u16, Seq<char>>(port),
        env_config(base, env) is Ok,
    ensures
        invocation_config(base, args, env) == Ok::<ConfigView, Seq<char>>(
            ConfigView { api_port: port, ..env_config(base, env)->Ok_0 },
        ),
{
    let c = env_config(base, env)->Ok_0;
    let c2 = ConfigView { api_port: port, ..c };
    assert(arg_step(c, args, 1) == Ok::<(ConfigView, bool), Seq<char>>((c2, true)));
    assert(args_config(c2, args, 3) == Ok::<ConfigView, Seq<char>>(c2));
}


// ------------------------------------------------------------------
// Laws of port validity
// ------------------------------------------------------------------

/// Every port of the configuration is from 1 to 65535.
pub open spec fn ports_valid(c: ConfigView) -> bool {
    &&& c.api_port >= 1
    &&& c.gspro_port >= 1
    &&& c.infinite_tees_port >= 1
    &&& c.squarelaunch_ws_port >= 1
}

proof fn lemma_port_value_nonzero(value: Seq<char>, label: Seq<char>)
    ensures
        port_value(value, label) matches Ok(p) ==> p >= 1,
{
}

proof fn lemma_args_keep_ports_valid(c: ConfigView, args: Seq<&str>, i: int)
    requires
        ports_valid(c),
    ensures
        args_config(c, args, i) matches Ok(r) ==> ports_valid(r),
    decreases args.len() - i,
{
    if 0 <= i < args.len() {
        if i + 1 < args.len() {
            lemma_port_value_nonzero(args[i + 1]@, "api port"@);
            lemma_port_value_nonzero(args[i + 1]@, "SquareLaunch websocket port"@);
            lemma_port_value_nonzero(args[i + 1]@, "GSPro port"@);
            lemma_port_value_nonzero(args[i + 1]@, "Infinite Tees port"@);
        }
        match arg_step(c, args, i) {
            Err(_) => {},
            Ok((c2, took)) => {
                lemma_args_keep_ports_valid(c2, args, if took {
                    i + 2
                } else {
                    i + 1
                });
            },
        }
    }
}

/// Every configuration the connector accepts has valid ports: the built-in
/// defaults do, and so does whatever the environment and the command line
/// make of a base that does.
pub proof fn law_accepted_configurations_have_valid_ports(
    base: ConfigView,
    args: Seq<&str>,
    env: Seq<(&str, &str)>,
)
    requires
        ports_valid(base),
    ensures
        ports_valid(default_config()),
        env_config(base, env) matches Ok(c) ==> ports_valid(c),
        invocation_config(base, args, env) matches Ok(c) ==> ports_valid(c),
{
    match env_lookup(env, "SQUAREGOLF_API_PORT"@) {
        Some(v) => lemma_port_value_nonzero(v, "api port"@),
        None => {},
    }
    match env_lookup(env, "SQUARELAUNCH_WS_PORT"@) {
        Some(v) => lemma_port_value_nonzero(v, "SquareLaunch websocket port"@),
        None => {},
    }
    match env_lookup(env, "GSPRO_PORT"@) {
        Some(v) => lemma_port_value_nonzero(v, "GSPro port"@),
        None => {},
    }
    match env_lookup(env, "INFINITE_TEES_PORT"@) {
        Some(v) => lemma_port_value_nonzero(v, "Infinite Tees port"@),
        None => {},
    }
    if let Ok(c) = env_config(base, env) {
        lemma_args_keep_ports_valid(c, args, 1);
    }
}

/// Saved settings that are accepted have valid ports.
pub proof fn law_saved_settings_have_valid_ports(fields: Seq<FieldView>)
    ensures
        json_config(fields) matches Ok(c) ==> ports_valid(c),
{
}

// ------------------------------------------------------------------
// Laws of saved settings
// ------------------------------------------------------------------

/// Member `i` is the first one called `name`.
pub open spec fn named_at(fields: Seq<FieldView>, name: Seq<char>, i: int) -> bool {
    &&& 0 <= i < fields.len()
    &&& fields[i].name == name
    &&& forall|j: int| 0 <= j < i ==> fields[j].name != name
}

/// No member is called `name`.
pub open spec fn unnamed(fields: Seq<FieldView>, name: Seq<char>) -> bool {
    forall|j: int| 0 <= j < fields.len() ==> fields[j].name != name
}

proof fn lemma_member_at(fields: Seq<FieldView>, name: Seq<char>, i: int)
    requires
        named_at(fields, name, i),
    ensures
        member(fields, name) == Some(fields[i].value),
    decreases i,
{
    if i > 0 {
        let rest = fields.drop_first();
        assert(fields[0].name != name);
        assert forall|j: int| 0 <= j < i - 1 implies rest[j].name != name by {
            assert(rest[j] == fields[j + 1]);
        }
        assert(rest[i - 1] == fields[i]);
        lemma_member_at(rest, name, i - 1);
    }
}

proof fn lemma_member_absent(fields: Seq<FieldView>, name: Seq<char>)
    requires
        unnamed(fields, name),
    ensures
        member(fields, name) is None,
    decreases fields.len(),
{
    if fields.len() > 0 {
        let rest = fields.drop_first();
        assert(fields[0].name != name);
        assert forall|j: int| 0 <= j < rest.len() implies rest[j].name != name by {
            assert(rest[j] == fields[j + 1]);
        }
        lemma_member_absent(rest, name);
    }
}

/// Saved settings under the names the connector writes load back as they
/// were written: a non-blank `gsproHost`, `infiniteTeesHost` or
/// `squarelaunchWsHost` string gives that host, trimmed (ahead of the legacy
/// `gsproIP` / `infiniteTeesIP`); an unsigned `apiPort`, `gsproPort`,
/// `infiniteTeesPort` or `squarelaunchWsPort` gives that port; a boolean
/// `gsproEnabled`, `infiniteTeesEnabled` or `squarelaunchEnabled` gives that
/// switch. Without a `gsproHost` member, a non-blank legacy `gsproIP` gives
/// the GSPro host.
pub proof fn law_saved_settings_load_back(fields: Seq<FieldView>, i: int, s: Seq<char>, n: u64, b: bool)
    requires
        json_config(fields) is Ok,
    ensures
        ({
            let c = json_config(fields)->Ok_0;
            &&& named_at(fields, "gsproHost"@, i) && fields[i].value == ScalarView::Text(s)
                && trim_ws(s).len() > 0 ==> c.gspro_host == trim_ws(s)
            &&& unnamed(fields, "gsproHost"@) && named_at(fields, "gsproIP"@, i) && fields[i].value
                == ScalarView::Text(s) && trim_ws(s).len() > 0 ==> c.gspro_host == trim_ws(s)
            &&& named_at(fields, "infiniteTeesHost"@, i) && fields[i].value == ScalarView::Text(s)
                && trim_ws(s).len() > 0 ==> c.infinite_tees_host == trim_ws(s)
            &&& named_at(fields, "squarelaunchWsHost"@, i) && fields[i].value == ScalarView::Text(s)
                && trim_ws(s).len() > 0 ==> c.squarelaunch_ws_host == Some(trim_ws(s))
            &&& named_at(fields, "apiPort"@, i) && fields[i].value == ScalarView::Unsigned(n)
                ==> c.api_port == n
            &&& named_at(fields, "gsproPort"@, i) && fields[i].value == ScalarView::Unsigned(n)
                ==> c.gspro_port == n
            &&& named_at(fields, "infiniteTeesPort"@, i) && fields[i].value == ScalarView::Unsigned(n)
                ==> c.infinite_tees_port == n
            &&& named_at(fields, "squarelaunchWsPort"@, i) && fields[i].value == ScalarView::Unsigned(n)
                ==> c.squarelaunch_ws_port == n
            &&& named_at(fields, "gsproEnabled"@, i) && fields[i].value == ScalarView::Flag(b)
                ==> c.gspro_enabled == b
            &&& named_at(fields, "infiniteTeesEnabled"@, i) && fields[i].value == ScalarView::Flag(b)
                ==> c.infinite_tees_enabled == b
            &&& named_at(fields, "squarelaunchEnabled"@, i) && fields[i].value == ScalarView::Flag(b)
                ==> c.squarelaunch_enabled == b
        }),
{
    if 0 <= i < fields.len() {
        let nm = fields[i].name;
        if forall|j: int| 0 <= j < i ==> fields[j].name != nm {
            assert(named_at(fields, nm, i));
            lemma_member_at(fields, nm, i);
        }
    }
    if unnamed(fields, "gsproHost"@) {
        lemma_member_absent(fields, "gsproHost"@);
        let names = seq!["gsproHost"@, "gsproIP"@];
        assert(names.drop_first() =~= seq!["gsproIP"@]);
        assert(text_member(fields, names) == text_member(fields, seq!["gsproIP"@]));
    }
}

/// Settings saved under the older names load too, when the current name is
/// absent: a non-blank `infiniteTeesIP` or `squarelaunchWSHost` string gives
/// that host, trimmed; an unsigned `squarelaunchWSPort` gives that port; a
/// boolean `gsproAutoConnect` or `infiniteTeesAutoConnect` gives that switch.
pub proof fn law_legacy_settings_load_back(fields: Seq<FieldView>, i: int, s: Seq<char>, n: u64, b: bool)
    requires
        json_config(fields) is Ok,
    ensures
        ({
            let c = json_config(fields)->Ok_0;
            &&& unnamed(fields, "infiniteTeesHost"@) && named_at(fields, "infiniteTeesIP"@, i)
                && fields[i].value == ScalarView::Text(s) && trim_ws(s).len() > 0
                ==> c.infinite_tees_host == trim_ws(s)
            &&& unnamed(fields, "squarelaunchWsHost"@) && named_at(fields, "squarelaunchWSHost"@, i)
                && fields[i].value == ScalarView::Text(s) && trim_ws(s).len() > 0
                ==> c.squarelaunch_ws_host == Some(trim_ws(s))
            &&& unnamed(fields, "squarelaunchWsPort"@) && named_at(fields, "squarelaunchWSPort"@, i)
                && fields[i].value == ScalarView::Unsigned(n) ==> c.squarelaunch_ws_port == n
            &&& unnamed(fields, "gsproEnabled"@) && named_at(fields, "gsproAutoConnect"@, i)
                && fields[i].value == ScalarView::Flag(b) ==> c.gspro_enabled == b
            &&& unnamed(fields, "infiniteTeesEnabled"@) && named_at(fields, "infiniteTeesAutoConnect"@, i)
                && fields[i].value == ScalarView::Flag(b) ==> c.infinite_tees_enabled == b
        }),
{
    if 0 <= i < fields.len() {
        let nm = fields[i].name;
        if forall|j: int| 0 <= j < i ==> fields[j].name != nm {
            assert(named_at(fields, nm, i));
            lemma_member_at(fields, nm, i);
        }
    }
    if unnamed(fields, "infiniteTeesHost"@) {
        lemma_member_absent(fields, "infiniteTeesHost"@);
        assert(seq!["infiniteTeesHost"@, "infiniteTeesIP"@].drop_first() =~= seq!["infiniteTeesIP"@]);
        assert(text_member(fields, seq!["infiniteTeesHost"@, "infiniteTeesIP"@]) == text_member(fields, seq!["infiniteTeesIP"@]));
    }
    if unnamed(fields, "squarelaunchWsHost"@) {
        lemma_member_absent(fields, "squarelaunchWsHost"@);
        assert(seq!["squarelaunchWsHost"@, "squarelaunchWSHost"@].drop_first() =~= seq!["squarelaunchWSHost"@]);
        assert(text_member(fields, seq!["squarelaunchWsHost"@, "squarelaunchWSHost"@]) == text_member(fields, seq!["squarelaunchWSHost"@]));
    }
    if unnamed(fields, "squarelaunchWsPort"@) {
        lemma_member_absent(fields, "squarelaunchWsPort"@);
        assert(seq!["squarelaunchWsPort"@, "squarelaunchWSPort"@].drop_first() =~= seq!["squarelaunchWSPort"@]);
        assert(number_member(fields, seq!["squarelaunchWsPort"@, "squarelaunchWSPort"@]) == number_member(fields, seq!["squarelaunchWSPort"@]));
    }
    if unnamed(fields, "gsproEnabled"@) {
        lemma_member_absent(fields, "gsproEnabled"@);
        assert(seq!["gsproEnabled"@, "gsproAutoConnect"@].drop_first() =~= seq!["gsproAutoConnect"@]);
        assert(flag_member(fields, seq!["gsproEnabled"@, "gsproAutoConnect"@]) == flag_member(fields, seq!["gsproAutoConnect"@]));
    }
    if unnamed(fields, "infiniteTeesEnabled"@) {
        lemma_member_absent(fields, "infiniteTeesEnabled"@);
        assert(seq!["infiniteTeesEnabled"@, "infiniteTeesAutoConnect"@].drop_first() =~= seq!["infiniteTeesAutoConnect"@]);
        assert(flag_member(fields, seq!["infiniteTeesEnabled"@, "infiniteTeesAutoConnect"@]) == flag_member(fields, seq!["infiniteTeesAutoConnect"@]));
    }
}

// ------------------------------------------------------------------
// Saved configuration
// ------------------------------------------------------------------

/// The value of the member called `name`.
pub open spec fn member(fields: Seq<FieldView>, name: Seq<char>) -> Option<ScalarView>
    decreases fields.len(),
{
    if fields.len() == 0 {
        None
    } else if fields[0].name == name {
        Some(fields[0].value)
    } else {
        member(fields.drop_first(), name)
    }
}

/// The first of `names` whose member is a string that is not blank, trimmed.
pub open spec fn text_member(fields: Seq<FieldView>, names: Seq<Seq<char>>) -> Option<Seq<char>>
    decreases names.len(),
{
    if names.len() == 0 {
        None
    } else {
        match member(fields, names[0]) {
            Some(ScalarView::Text(s)) => if trim_ws(s).len() > 0 {
                Some(trim_ws(s))
            } else {
                text_member(fields, names.drop_first())
            },
            _ => text_member(fields, names.drop_first()),
        }
    }
}

/// The first of `names` whose member is an unsigned integer.
pub open spec fn number_member(fields: Seq<FieldView>, names: Seq<Seq<char>>) -> Option<u64>
    decreases names.len(),
{
    if names.len() == 0 {
        None
    } else if let Some(ScalarView::Unsigned(n)) = member(fields, names[0]) {
        Some(n)
    } else {
        number_member(fields, names.drop_first())
    }
}

/// The first of `names` whose member is a boolean.
pub open spec fn flag_member(fields: Seq<FieldView>, names: Seq<Seq<char>>) -> Option<bool>
    decreases names.len(),
{
    if names.len() == 0 {
        None
    } else if let Some(ScalarView::Flag(b)) = member(fields, names[0]) {
        Some(b)
    } else {
        flag_member(fields, names.drop_first())
    }
}

pub open spec fn port_number(n: u64, label: Seq<char>) -> Result<u16, Seq<char>> {
    if n == 0 || n > 65535 {
        Err(label + " must be from 1 to 65535"@)
    } else {
        Ok(n as u16)
    }
}

pub open spec fn stored_port(fields: Seq<FieldView>, names: Seq<Seq<char>>, label: Seq<char>) -> Option<
    Result<u16, Seq<char>>,
> {
    match number_member(fields, names) {
        Some(n) => Some(port_number(n, label)),
        None => None,
    }
}

pub open spec fn text_or(t: Option<Seq<char>>, d: Seq<char>) -> Seq<char> {
    match t {
        Some(v) => v,
        None => d,
    }
}

pub open spec fn bool_or(t: Option<bool>, d: bool) -> bool {
    match t {
        Some(v) => v,
        None => d,
    }
}

/// The configuration a saved settings object describes, over the defaults.
/// Current and older names are both read: `gsproHost`/`gsproIP`,
/// `gsproEnabled`/`gsproAutoConnect`, `infiniteTeesHost`/`infiniteTeesIP`,
/// `infiniteTeesEnabled`/`infiniteTeesAutoConnect`,
/// `squarelaunchWsHost`/`squarelaunchWSHost` and
/// `squarelaunchWsPort`/`squarelaunchWSPort`. The first port out of range,
/// in the order API, GSPro, Infinite Tees, SquareLaunch, is the error.
pub open spec fn json_config(fields: Seq<FieldView>) -> Result<ConfigView, Seq<char>> {
    let d = default_config();
    let api = stored_port(fields, seq!["apiPort"@], "apiPort"@);
    let gp = stored_port(fields, seq!["gsproPort"@], "gsproPort"@);
    let ip = stored_port(fields, seq!["infiniteTeesPort"@], "infiniteTeesPort"@);
    let sp = stored_port(
        fields,
        seq!["squarelaunchWsPort"@, "squarelaunchWSPort"@],
        "squarelaunchWsPort"@,
    );
    if let Some(Err(e)) = api {
        Err(e)
    } else if let Some(Err(e)) = gp {
        Err(e)
    } else if let Some(Err(e)) = ip {
        Err(e)
    } else if let Some(Err(e)) = sp {
        Err(e)
    } else {
        Ok(
            ConfigView {
                api_port: port_or(api, d.api_port),
                gspro_host: text_or(text_member(fields, seq!["gsproHost"@, "gsproIP"@]), d.gspro_host),
                gspro_port: port_or(gp, d.gspro_port),
                gspro_enabled: bool_or(
                    flag_member(fields, seq!["gsproEnabled"@, "gsproAutoConnect"@]),
                    d.gspro_enabled,
                ),
                infinite_tees_host: text_or(
                    text_member(fields, seq!["infiniteTeesHost"@, "infiniteTeesIP"@]),
                    d.infinite_tees_host,
                ),
                infinite_tees_port: port_or(ip, d.infinite_tees_port),
                infinite_tees_enabled: bool_or(
                    flag_member(fields, seq!["infiniteTeesEnabled"@, "infiniteTeesAutoConnect"@]),
                    d.infinite_tees_enabled,
                ),
                squarelaunch_ws_host: text_member(
                    fields,
                    seq!["squarelaunchWsHost"@, "squarelaunchWSHost"@],
                ),
                squarelaunch_ws_port: port_or(sp, d.squarelaunch_ws_port),
                squarelaunch_enabled: bool_or(
                    flag_member(fields, seq!["squarelaunchEnabled"@]),
                    d.squarelaunch_enabled,
                ),
            },
        )
    }
}

/// The configuration a settings file at `path` holding `text` describes.
pub open spec fn stored_config(path: Seq<char>, text: Seq<char>) -> Result<ConfigView, Seq<char>> {
    match json_object_fields(text) {
        Err(e) => Err("parse config "@ + path + ": "@ + e),
        Ok(fields) => json_config(fields),
    }
}

pub(crate) fn find_member<'a>(fields: &'a Vec<JsonField>, name: &str) -> (r: Option<&'a JsonScalar>)
    ensures
        match r {
            Some(v) => member(fields_view(fields@), name@) == Some(v@),
            None => member(fields_view(fields@), name@) is None,
        },
{
    let key = chars_of(name);
    let ghost fv = fields_view(fields@);
    assert(fv.subrange(0, fv.len() as int) =~= fv);
    let mut i: usize = 0;
    while i < fields.len()
        invariant
            i <= fields.len(),
            fv == fields_view(fields@),
            key@ == name@,
            member(fv, name@) == member(fv.subrange(i as int, fv.len() as int), name@),
        decreases fields.len() - i,
    {
        let ghost rest = fv.subrange(i as int, fv.len() as int);
        assert(rest.drop_first() =~= fv.subrange(i + 1, fv.len() as int));
        assert(rest[0] == fields@[i as int]@);
        if same_text(&chars_of(fields[i].name.as_str()), &key) {
            return Some(&fields[i].value);
        }
        i = i + 1;
    }
    None
}

fn find_text(fields: &Vec<JsonField>, names: &[&str]) -> (r: Option<String>)
    ensures
        opt_text(r) == text_member(fields_view(fields@), texts_of(names@)),
{
    let ghost fv = fields_view(fields@);
    let ghost ns = texts_of(names@);
    assert(ns.subrange(0, ns.len() as int) =~= ns);
    let mut i: usize = 0;
    while i < names.len()
        invariant
            i <= names.len(),
            fv == fields_view(fields@),
            ns == texts_of(names@),
            text_member(fv, ns) == text_member(fv, ns.subrange(i as int, ns.len() as int)),
        decreases names.len() - i,
    {
        let ghost rest = ns.subrange(i as int, ns.len() as int);
        assert(rest.drop_first() =~= ns.subrange(i + 1, ns.len() as int));
        if let Some(JsonScalar::Text(s)) = find_member(fields, names[i]) {
            let t = trim(&chars_of(s.as_str()));
            if t.len() > 0 {
                return Some(string_from_chars(&t));
            }
        }
        i = i + 1;
    }
    None
}

fn find_number(fields: &Vec<JsonField>, names: &[&str]) -> (r: Option<u64>)
    ensures
        r == number_member(fields_view(fields@), texts_of(names@)),
{
    let ghost fv = fields_view(fields@);
    let ghost ns = texts_of(names@);
    assert(ns.subrange(0, ns.len() as int) =~= ns);
    let mut i: usize = 0;
    while i < names.len()
        invariant
            i <= names.len(),
            fv == fields_view(fields@),
            ns == texts_of(names@),
            number_member(fv, ns) == number_member(fv, ns.subrange(i as int, ns.len() as int)),
        decreases names.len() - i,
    {
        let ghost rest = ns.subrange(i as int, ns.len() as int);
        assert(rest.drop_first() =~= ns.subrange(i + 1, ns.len() as int));
        if let Some(JsonScalar::Unsigned(n)) = find_member(fields, names[i]) {
            return Some(*n);
        }
        i = i + 1;
    }
    None
}

fn find_flag(fields: &Vec<JsonField>, names: &[&str]) -> (r: Option<bool>)
    ensures
        r == flag_member(fields_view(fields@), texts_of(names@)),
{
    let ghost fv = fields_view(fields@);
    let ghost ns = texts_of(names@);
    assert(ns.subrange(0, ns.len() as int) =~= ns);
    let mut i: usize = 0;
    while i < names.len()
        invariant
            i <= names.len(),
            fv == fields_view(fields@),
            ns == texts_of(names@),
            flag_member(fv, ns) == flag_member(fv, ns.subrange(i as int, ns.len() as int)),
        decreases names.len() - i,
    {
        let ghost rest = ns.subrange(i as int, ns.len() as int);
        assert(rest.drop_first() =~= ns.subrange(i + 1, ns.len() as int));
        if let Some(JsonScalar::Flag(b)) = find_member(fields, names[i]) {
            return Some(*b);
        }
        i = i + 1;
    }
    None
}

fn stored_port_exec(fields: &Vec<JsonField>, names: &[&str], label: &str, port: &mut u16) -> (r: Result<(), String>)
    ensures
        match stored_port(fields_view(fields@), texts_of(names@), label@) {
            None => r is Ok && *final(port) == *old(port),
            Some(Ok(p)) => r is Ok && *final(port) == p,
            Some(Err(e)) => r matches Err(x) && x@ == e,
        },
{
    match find_number(fields, names) {
        None => Ok(()),
        Some(n) => {
            if n == 0 || n > 65535 {
                let mut msg = chars_of(label);
                push_str(&mut msg, " must be from 1 to 65535");
                Err(string_from_chars(&msg))
            } else {
                *port = n as u16;
                Ok(())
            }
        },
    }
}

/// The configuration that saved settings describe, over the defaults.
pub fn config_from_json_fields(fields: &Vec<JsonField>) -> (r: Result<AppConfig, String>)
    ensures
        config_result(r) == json_config(fields_view(fields@)),
{
    let ghost fv = fields_view(fields@);
    let mut config = AppConfig::default();
    let api_names = ["apiPort"];
    assert(texts_of(api_names@) =~= seq!["apiPort"@]);
    stored_port_exec(fields, &api_names, "apiPort", &mut config.api_port)?;
    let names = ["gsproHost", "gsproIP"];
    assert(texts_of(names@) =~= seq!["gsproHost"@, "gsproIP"@]);
    if let Some(host) = find_text(fields, &names) {
        config.gspro_host = host;
    }
    let names = ["gsproPort"];
    assert(texts_of(names@) =~= seq!["gsproPort"@]);
    stored_port_exec(fields, &names, "gsproPort", &mut config.gspro_port)?;
    let names = ["gsproEnabled", "gsproAutoConnect"];
    assert(texts_of(names@) =~= seq!["gsproEnabled"@, "gsproAutoConnect"@]);
    if let Some(enabled) = find_flag(fields, &names) {
        config.gspro_enabled = enabled;
    }
    let names = ["infiniteTeesHost", "infiniteTeesIP"];
    assert(texts_of(names@) =~= seq!["infiniteTeesHost"@, "infiniteTeesIP"@]);
    if let Some(host) = find_text(fields, &names) {
        config.infinite_tees_host = host;
    }
    let names = ["infiniteTeesPort"];
    assert(texts_of(names@) =~= seq!["infiniteTeesPort"@]);
    stored_port_exec(fields, &names, "infiniteTeesPort", &mut config.infinite_tees_port)?;
    let names = ["infiniteTeesEnabled", "infiniteTeesAutoConnect"];
    assert(texts_of(names@) =~= seq!["infiniteTeesEnabled"@, "infiniteTeesAutoConnect"@]);
    if let Some(enabled) = find_flag(fields, &names) {
        config.infinite_tees_enabled = enabled;
    }
    let names = ["squarelaunchWsHost", "squarelaunchWSHost"];
    assert(texts_of(names@) =~= seq!["squarelaunchWsHost"@, "squarelaunchWSHost"@]);
    if let Some(host) = find_text(fields, &names) {
        config.squarelaunch_ws_host = Some(host);
    }
    let names = ["squarelaunchWsPort", "squarelaunchWSPort"];
    assert(texts_of(names@) =~= seq!["squarelaunchWsPort"@, "squarelaunchWSPort"@]);
    stored_port_exec(fields, &names, "squarelaunchWsPort", &mut config.squarelaunch_ws_port)?;
    let names = ["squarelaunchEnabled"];
    assert(texts_of(names@) =~= seq!["squarelaunchEnabled"@]);
    if let Some(enabled) = find_flag(fields, &names) {
        config.squarelaunch_enabled = enabled;
    }
    Ok(config)
}

/// Where the connector keeps its settings file.
#[derive(Debug, Clone)]
pub struct ConfigStore {
    path: String,
}

impl ConfigStore {
    pub closed spec fn spec_path(&self) -> Seq<char> {
        self.path@
    }

    pub fn new(path: String) -> (r: Self)
        ensures
            r.spec_path() == path@,
    {
        ConfigStore { path }
    }

    pub fn path(&self) -> (r: &str)
        ensures
            r@ == self.spec_path(),
    {
        self.path.as_str()
    }

    /// The configuration that this store's file describes when it holds
    /// `text`; a document that is not JSON is reported with the file's path.
    pub fn config_from_text(&self, text: &str) -> (r: Result<AppConfig, String>)
        ensures
            config_result(r) == stored_config(self.spec_path(), text@),
    {
        match parse_json_object_fields(text) {
            Err(e) => {
                let mut msg = chars_of("parse config ");
                push_str(&mut msg, self.path.as_str());
                push_str(&mut msg, ": ");
                push_str(&mut msg, e.as_str());
                Err(string_from_chars(&msg))
            },
            Ok(fields) => config_from_json_fields(&fields),
        }
    }
}

} // verus!
