//! The launch monitor as a Bluetooth peripheral: which peripheral to connect
//! to, and what its notifications carry.
use vstd::prelude::*;

use crate::protocol::commands::lemma_hex_pair_reads_back;
use crate::protocol::parser::{
    decode_omni_shot_club_metrics, decode_shot_ball_metrics, decode_shot_club_metrics,
    decodes_ball_frame, decodes_club_frame, decodes_omni_club_frame, read_hex_byte, RawBallMetrics,
    RawClubMetrics,
};
use crate::text::{
    chars_of, push_str, eq_ignore_case, has_prefix, hex_byte, hex_encode, hex_pair, hex_text, same_text,
    same_text_ignore_case, starts_with, string_from_chars, copy_range, texts_of,
};

verus! {

/// Which peripheral to connect to: a SquareGolf device, optionally the one
/// with this name and this address, or the built-in emulator.
#[derive(Debug, Clone, PartialEq, Eq)]
pub struct DeviceConnectOptions {
    pub device_name: Option<String>,
    pub device_address: Option<String>,
    pub emulator: bool,
}

impl Default for DeviceConnectOptions {
    fn default() -> (r: Self)
        ensures
            r.device_name is None && r.device_address is None && !r.emulator,
    {
        DeviceConnectOptions { device_name: None, device_address: None, emulator: false }
    }
}

/// A peripheral is chosen when its advertised name equals the requested one
/// (or, with none requested, starts with `SquareGolf`) and its address equals
/// the requested one up to ASCII case (any address when none is requested).
pub open spec fn peripheral_selected(
    name: Option<Seq<char>>,
    address: Option<Seq<char>>,
    local_name: Seq<char>,
    peripheral_address: Seq<char>,
) -> bool {
    &&& match name {
        Some(n) => local_name == n,
        None => has_prefix(local_name, "SquareGolf"@),
    }
    &&& match address {
        Some(a) => eq_ignore_case(peripheral_address, a),
        None => true,
    }
}

impl DeviceConnectOptions {
    pub fn selects(&self, local_name: &str, address: &str) -> (r: bool)
        ensures
            r == peripheral_selected(
                crate::config::opt_text(self.device_name),
                crate::config::opt_text(self.device_address),
                local_name@,
                address@,
            ),
    {
        let local = chars_of(local_name);
        let name_matches = match &self.device_name {
            Some(n) => same_text(&local, &chars_of(n.as_str())),
            None => starts_with(&local, &chars_of("SquareGolf")),
        };
        let address_matches = match &self.device_address {
            Some(a) => same_text_ignore_case(&chars_of(address), &chars_of(a.as_str())),
            None => true,
        };
        name_matches && address_matches
    }
}

/// What a notification carries.
#[derive(Debug)]
pub enum Notification {
    /// Not a frame the connector handles.
    Ignored,
    /// A ball-metrics frame (`0x11 0x02`), decoded.
    Ball(Result<RawBallMetrics, String>),
    /// A club-metrics frame (`0x11 0x07`), decoded as an Omni frame when it
    /// has at least 19 bytes.
    Club(Result<RawClubMetrics, String>),
}

/// The notification's bytes as two-character lower-case hex fields.
pub open spec fn hex_fields(value: Seq<u8>) -> Seq<Seq<char>> {
    value.map_values(|b: u8| hex_pair(b))
}

pub open spec fn notification_kind(value: Seq<u8>) -> int {
    if value.len() < 2 || value[0] != 0x11 {
        0
    } else if value[1] == 0x02 {
        1
    } else if value[1] == 0x07 {
        2
    } else {
        0
    }
}

fn hex_strings(value: &[u8]) -> (r: Vec<String>)
    ensures
        r@.map_values(|s: String| s@) == hex_fields(value@),
{
    let mut r: Vec<String> = Vec::new();
    let mut i: usize = 0;
    while i < value.len()
        invariant
            i <= value.len(),
            r@.len() == i,
            forall|j: int| 0 <= j < i ==> (#[trigger] r@[j])@ == hex_pair(value@[j]),
        decreases value.len() - i,
    {
        let one = vec![value[i]];
        let chars = hex_encode(&one);
        assert(one@.drop_last() =~= Seq::<u8>::empty());
        assert(one@.last() == value@[i as int]);
        assert(hex_text(Seq::<u8>::empty()) == Seq::<char>::empty());
        assert(chars@ =~= hex_pair(value@[i as int]));
        r.push(string_from_chars(&chars));
        i = i + 1;
    }
    assert(r@.map_values(|s: String| s@) =~= hex_fields(value@));
    r
}

fn field_refs(strings: &Vec<String>) -> (r: Vec<&str>)
    ensures
        texts_of(r@) == strings@.map_values(|s: String| s@),
{
    let mut r: Vec<&str> = Vec::new();
    let mut i: usize = 0;
    while i < strings.len()
        invariant
            i <= strings.len(),
            r@.len() == i,
            forall|j: int| 0 <= j < i ==> (#[trigger] r@[j])@ == strings@[j]@,
        decreases strings.len() - i,
    {
        r.push(strings[i].as_str());
        i = i + 1;
    }
    assert(texts_of(r@) =~= strings@.map_values(|s: String| s@));
    r
}

/// Decodes a notification: frames start with `0x11`; a second byte of `0x02`
/// marks ball metrics and `0x07` club metrics; everything else is ignored.
/// The frame's bytes are rendered as hex fields and handed to the decoders.
pub fn decode_notification(value: &[u8]) -> (r: Notification)
    ensures
        notification_kind(value@) == 0 ==> r is Ignored,
        notification_kind(value@) == 1 ==> (r matches Notification::Ball(res)
            && decodes_ball_frame(hex_fields(value@), res)),
        notification_kind(value@) == 2 && value@.len() >= 19 ==> (r matches Notification::Club(res)
            && decodes_omni_club_frame(hex_fields(value@), res)),
        notification_kind(value@) == 2 && value@.len() < 19 ==> (r matches Notification::Club(res)
            && decodes_club_frame(hex_fields(value@), res)),
{
    if value.len() < 2 || value[0] != 0x11 {
        return Notification::Ignored;
    }
    let strings = hex_strings(value);
    let fields = field_refs(&strings);
    if value[1] == 0x02 {
        Notification::Ball(decode_shot_ball_metrics(fields.as_slice()))
    } else if value[1] == 0x07 {
        if value.len() >= 19 {
            Notification::Club(decode_omni_shot_club_metrics(fields.as_slice()))
        } else {
            Notification::Club(decode_shot_club_metrics(fields.as_slice()))
        }
    } else {
        Notification::Ignored
    }
}

/// Hex fields as bytes; absent when any field is not a hex byte.
pub fn decode_hex_fields(fields: &Vec<String>) -> (r: Option<Vec<u8>>)
    ensures
        match r {
            Some(bytes) => bytes@.len() == fields@.len() && forall|i: int|
                0 <= i < fields@.len() ==> hex_byte(fields@[i]@) == Some(#[trigger] bytes@[i]),
            None => exists|i: int| 0 <= i < fields@.len() && hex_byte(fields@[i]@) is None,
        },
{
    let mut out: Vec<u8> = Vec::new();
    let mut i: usize = 0;
    while i < fields.len()
        invariant
            i <= fields.len(),
            out@.len() == i,
            forall|j: int| 0 <= j < i ==> hex_byte(fields@[j]@) == Some(#[trigger] out@[j]),
        decreases fields.len() - i,
    {
        match read_hex_byte(fields[i].as_str()) {
            Some(b) => out.push(b),
            None => return None,
        }
        i = i + 1;
    }
    Some(out)
}

// ------------------------------------------------------------------
// Characteristic identifiers
// ------------------------------------------------------------------

pub open spec fn wide_result(r: Result<u128, String>) -> Result<u128, Seq<char>> {
    match r {
        Ok(n) => Ok(n),
        Err(e) => Err(e@),
    }
}

/// What `uuid::Uuid::parse_str` makes of `text`: the UUID's 128-bit value
/// (`Uuid::as_u128`), or the parser's error message.
pub uninterp spec fn uuid_parse(text: Seq<char>) -> Result<u128, Seq<char>>;

/// Calls `uuid::Uuid::parse_str` on `value`, handing back the UUID as its
/// 128-bit big-endian value or the error's message. Claimed: the result is
/// the named `uuid_parse(value)`, a function of the text alone.
#[verifier::external_body]
fn parse_uuid_text(value: &str) -> (r: Result<u128, String>)
    ensures
        wide_result(r) == uuid_parse(value@),
{
    match uuid::Uuid::parse_str(value) {
        Ok(id) => Ok(id.as_u128()),
        Err(err) => Err(err.to_string()),
    }
}

/// A parsed identifier, or the parser's complaint under the text's name.
pub open spec fn uuid_outcome(value: Seq<char>, parsed: Result<u128, Seq<char>>) -> Result<u128, Seq<char>> {
    match parsed {
        Ok(n) => Ok(n),
        Err(e) => Err("parse UUID "@ + value + ": "@ + e),
    }
}

pub fn uuid_or_error(value: &str, parsed: Result<u128, String>) -> (r: Result<u128, String>)
    ensures
        wide_result(r) == uuid_outcome(value@, wide_result(parsed)),
{
    match parsed {
        Ok(n) => Ok(n),
        Err(e) => {
            let mut msg = chars_of("parse UUID ");
            push_str(&mut msg, value);
            push_str(&mut msg, ": ");
            push_str(&mut msg, e.as_str());
            Err(string_from_chars(&msg))
        },
    }
}

/// A characteristic's UUID from its text form.
pub fn parse_uuid(value: &str) -> (r: Result<u128, String>)
    ensures
        wide_result(r) == uuid_outcome(value@, uuid_parse(value@)),
{
    uuid_or_error(value, parse_uuid_text(value))
}

/// The hex fields of a notification decode back to its bytes: what the
/// emulator is handed as hex text is the frame that produced that text.
pub proof fn law_hex_fields_read_back(value: Seq<u8>)
    ensures
        hex_fields(value).len() == value.len(),
        forall|i: int| 0 <= i < value.len() ==> hex_byte(#[trigger] hex_fields(value)[i]) == Some(value[i]),
{
    assert forall|i: int| 0 <= i < value.len() implies hex_byte(#[trigger] hex_fields(value)[i]) == Some(value[i]) by {
        lemma_hex_pair_reads_back(value[i]);
    }
}

} // verus!
