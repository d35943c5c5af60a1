//! Notification frames from the launch monitor. A frame arrives as a list of
//! two-character hex fields; multi-byte values are little endian, and the
//! value `i16::MIN` marks a metric the device could not measure.
//!
//! Angles, speeds and spin axes travel as hundredths; the decoders here keep
//! them as the integers the device sent (fields ending in `_x100`).
use vstd::prelude::*;

use crate::text::{
    chars_of, decimal_text, eq_ignore_case, has_infix, hex_byte, parse_unsigned, push_decimal,
    push_str, same_text_ignore_case, string_from_chars, string_texts, text_of, texts_of, upper_text,
    contains, to_upper,
};

verus! {

// ------------------------------------------------------------------
// Specification of field decoding
// ------------------------------------------------------------------

/// Signed 16-bit value of two little-endian bytes.
pub open spec fn le_i16(lo: u8, hi: u8) -> i16 {
    let u = lo + 256 * hi;
    (if u >= 0x8000 {
        u - 0x1_0000
    } else {
        u
    }) as i16
}

/// Signed 32-bit value of four little-endian bytes.
pub open spec fn le_i32(b0: u8, b1: u8, b2: u8, b3: u8) -> i32 {
    let u = b0 + 256 * b1 + 65536 * b2 + 16777216 * b3;
    (if u >= 0x8000_0000 {
        u - 0x1_0000_0000
    } else {
        u
    }) as i32
}

/// Two hex fields read as a little-endian `i16`.
pub open spec fn field_i16(low: Seq<char>, high: Seq<char>) -> Option<i16> {
    match (hex_byte(low), hex_byte(high)) {
        (Some(a), Some(b)) => Some(le_i16(a, b)),
        _ => None,
    }
}

/// Four hex fields starting at `start` read as a little-endian `i32`.
pub open spec fn field_i32(fields: Seq<Seq<char>>, start: int) -> Option<i32> {
    match (
        hex_byte(fields[start]),
        hex_byte(fields[start + 1]),
        hex_byte(fields[start + 2]),
        hex_byte(fields[start + 3]),
    ) {
        (Some(a), Some(b), Some(c), Some(d)) => Some(le_i32(a, b, c, d)),
        _ => None,
    }
}

/// A measured metric: the sentinel `i16::MIN` reads as 0 and not valid.
pub open spec fn field_metric(low: Seq<char>, high: Seq<char>) -> Option<(i16, bool)> {
    match field_i16(low, high) {
        Some(v) => if v == i16::MIN {
            Some((0i16, false))
        } else {
            Some((v, true))
        },
        None => None,
    }
}

/// A metric whose fields do not decode reads as 0 and not valid.
pub open spec fn metric_or_invalid(m: Option<(i16, bool)>) -> (i16, bool) {
    match m {
        Some(p) => p,
        None => (0i16, false),
    }
}

/// Value of a metric whose validity is not reported; 0 when it does not decode.
pub open spec fn metric_value(m: Option<(i16, bool)>) -> i16 {
    match m {
        Some(p) => p.0,
        None => 0i16,
    }
}

pub open spec fn i32_or_zero(v: Option<i32>) -> i32 {
    match v {
        Some(x) => x,
        None => 0i32,
    }
}

/// Weight of bit `k` of a byte.
pub open spec fn bit_weight(k: nat) -> nat {
    if k == 0 {
        1
    } else if k == 1 {
        2
    } else if k == 2 {
        4
    } else if k == 3 {
        8
    } else if k == 4 {
        16
    } else if k == 5 {
        32
    } else if k == 6 {
        64
    } else {
        128
    }
}

/// Bit `k` of `m`.
pub open spec fn bit(m: u8, k: nat) -> bool {
    (m as nat / bit_weight(k)) % 2 == 1
}

// ------------------------------------------------------------------
// Decoded frames
// ------------------------------------------------------------------

#[derive(Debug, Clone, Copy, PartialEq, Eq, Structural)]
pub enum DeviceType {
    Home,
    Omni,
}

#[derive(Debug, Clone, PartialEq, Eq)]
pub struct SensorData {
    pub raw_data: Vec<String>,
    pub ball_ready: bool,
    pub ball_detected: bool,
    pub position_x: i32,
    pub position_y: i32,
    pub position_z: i32,
}

/// A ball-metrics frame as the device reported it. Speeds are in hundredths
/// of a metre per second, angles and the spin axis in hundredths of a degree.
#[derive(Debug, Clone, PartialEq, Eq)]
pub struct RawBallMetrics {
    pub raw_data: Vec<String>,
    pub ball_speed_mps_x100: i16,
    pub vertical_angle_x100: i16,
    pub horizontal_angle_x100: i16,
    pub total_spin_rpm: i16,
    pub spin_axis_x100: i16,
    pub backspin_rpm: i16,
    pub sidespin_rpm: i16,
    pub is_ball_speed_valid: bool,
    pub is_total_spin_valid: bool,
    pub is_spin_axis_valid: bool,
    pub is_backspin_valid: bool,
    pub is_sidespin_valid: bool,
    pub validity_bitmask: Option<String>,
}

/// A club-metrics frame as the device reported it, every value in hundredths.
#[derive(Debug, Clone, PartialEq, Eq)]
pub struct RawClubMetrics {
    pub raw_data: Vec<String>,
    pub path_angle_x100: i16,
    pub face_angle_x100: i16,
    pub attack_angle_x100: i16,
    pub dynamic_loft_angle_x100: i16,
    pub impact_horizontal_x100: i16,
    pub impact_vertical_x100: i16,
    pub club_speed_x100: i16,
    pub smash_factor_x100: i16,
    pub is_path_angle_valid: bool,
    pub is_face_angle_valid: bool,
    pub is_attack_angle_valid: bool,
    pub is_dynamic_loft_valid: bool,
    pub is_impact_horizontal_valid: bool,
    pub is_impact_vertical_valid: bool,
    pub is_club_speed_valid: bool,
    pub is_smash_factor_valid: bool,
}

/// An alignment frame; the aim angle is in hundredths of a degree.
#[derive(Debug, Clone, PartialEq, Eq)]
pub struct RawAlignmentData {
    pub raw_data: Vec<String>,
    pub aim_angle_x100: i16,
    pub is_aligned: bool,
}

/// What a club-metrics decoder yields for one value: value and validity.
pub open spec fn club_values(m: RawClubMetrics) -> Seq<(i16, bool)> {
    seq![
        (m.path_angle_x100, m.is_path_angle_valid),
        (m.face_angle_x100, m.is_face_angle_valid),
        (m.attack_angle_x100, m.is_attack_angle_valid),
        (m.dynamic_loft_angle_x100, m.is_dynamic_loft_valid),
        (m.impact_horizontal_x100, m.is_impact_horizontal_valid),
        (m.impact_vertical_x100, m.is_impact_vertical_valid),
        (m.club_speed_x100, m.is_club_speed_valid),
        (m.smash_factor_x100, m.is_smash_factor_valid),
    ]
}

/// The value and validity a regular club frame gives for value `k`: the
/// first four values come from fields 3..11, the others are absent.
pub open spec fn regular_club_value(fields: Seq<Seq<char>>, k: int) -> (i16, bool) {
    if k < 4 {
        metric_or_invalid(field_metric(fields[3 + 2 * k], fields[4 + 2 * k]))
    } else {
        (0i16, false)
    }
}

/// The value and validity an Omni club frame gives for value `k`: fields
/// `3 + 2k` and `4 + 2k`, valid only when bit `k` of the validity byte (field
/// 2, 0 when it does not decode) is set and the value is not the sentinel.
pub open spec fn omni_club_value(fields: Seq<Seq<char>>, k: int) -> (i16, bool) {
    let validity: u8 = match hex_byte(fields[2]) {
        Some(v) => v,
        None => 0,
    };
    match field_metric(fields[3 + 2 * k], fields[4 + 2 * k]) {
        Some((v, ok)) => (v, ok && bit(validity, k as nat)),
        None => (0i16, false),
    }
}

/// What decoding the ball-metrics frame with fields `f` gives.
pub open spec fn decodes_ball_frame(f: Seq<Seq<char>>, r: Result<RawBallMetrics, String>) -> bool {
    &&& r is Err <==> f.len() < 17
    &&& r matches Err(e) ==> e@ == "insufficient data for parsing ball metrics"@
    &&& r matches Ok(m) ==> {
        let speed = metric_or_invalid(field_metric(f[3], f[4]));
        let total = metric_or_invalid(field_metric(f[9], f[10]));
        let axis = metric_or_invalid(field_metric(f[11], f[12]));
        let back = metric_or_invalid(field_metric(f[13], f[14]));
        let side = metric_or_invalid(field_metric(f[15], f[16]));
        &&& string_texts(m.raw_data@) == f
        &&& m.ball_speed_mps_x100 == speed.0 && m.is_ball_speed_valid == speed.1
        &&& m.vertical_angle_x100 == metric_value(field_metric(f[5], f[6]))
        &&& m.horizontal_angle_x100 == metric_value(field_metric(f[7], f[8]))
        &&& m.total_spin_rpm == (if back.0 < 0 {
            -total.0
        } else {
            total.0 as int
        }) && m.is_total_spin_valid == total.1
        &&& m.spin_axis_x100 == axis.0 && m.is_spin_axis_valid == axis.1
        &&& m.backspin_rpm == back.0 && m.is_backspin_valid == back.1
        &&& m.sidespin_rpm == side.0 && m.is_sidespin_valid == side.1
        &&& m.validity_bitmask matches Some(b) && b@ == f[2]
    }
}

/// What decoding the regular club-metrics frame with fields `f` gives.
pub open spec fn decodes_club_frame(f: Seq<Seq<char>>, r: Result<RawClubMetrics, String>) -> bool {
    &&& r is Err <==> f.len() < 11
    &&& r matches Err(e) ==> e@ == "insufficient data for parsing club metrics"@
    &&& r matches Ok(m) ==> {
        &&& string_texts(m.raw_data@) == f
        &&& forall|k: int| 0 <= k < 8 ==> club_values(m)[k] == regular_club_value(f, k)
    }
}

/// What decoding the Omni club-metrics frame with fields `f` gives.
pub open spec fn decodes_omni_club_frame(f: Seq<Seq<char>>, r: Result<RawClubMetrics, String>) -> bool {
    &&& r is Err <==> f.len() < 19
    &&& r matches Err(e) ==> e@ == "insufficient data for parsing Omni club metrics (need 19, got "@
        + decimal_text(f.len()) + ")"@
    &&& r matches Ok(m) ==> {
        &&& string_texts(m.raw_data@) == f
        &&& forall|k: int| 0 <= k < 8 ==> club_values(m)[k] == omni_club_value(f, k)
    }
}

// ------------------------------------------------------------------
// Field decoding
// ------------------------------------------------------------------

fn raw(bytes: &[&str]) -> (r: Vec<String>)
    ensures
        string_texts(r@) == texts_of(bytes@),
{
    let mut r: Vec<String> = Vec::new();
    let mut i: usize = 0;
    while i < bytes.len()
        invariant
            i <= bytes.len(),
            r@.len() == i,
            forall|j: int| 0 <= j < i ==> (#[trigger] r@[j])@ == bytes@[j]@,
        decreases bytes.len() - i,
    {
        let t = text_of(bytes[i]);
        r.push(t);
        i = i + 1;
    }
    assert(string_texts(r@) =~= texts_of(bytes@));
    r
}

/// One hex field as a byte.
pub fn read_hex_byte(field: &str) -> (r: Option<u8>)
    ensures
        r == hex_byte(field@),
{
    let v = chars_of(field);
    match parse_unsigned(&v, 16, 255) {
        Some(n) => Some(n as u8),
        None => None,
    }
}

fn i16_from_le(lo: u8, hi: u8) -> (r: i16)
    ensures
        r == le_i16(lo, hi),
{
    let u: u32 = lo as u32 + 256 * (hi as u32);
    if u >= 0x8000 {
        (u as i32 - 0x1_0000) as i16
    } else {
        u as i16
    }
}

fn i32_from_le(b0: u8, b1: u8, b2: u8, b3: u8) -> (r: i32)
    ensures
        r == le_i32(b0, b1, b2, b3),
{
    let u: u64 = b0 as u64 + 256 * (b1 as u64) + 65536 * (b2 as u64) + 16777216 * (b3 as u64);
    if u >= 0x8000_0000 {
        (u as i64 - 0x1_0000_0000i64) as i32
    } else {
        u as i32
    }
}

pub fn parse_i16(low: &str, high: &str) -> (r: Option<i16>)
    ensures
        r == field_i16(low@, high@),
{
    match (read_hex_byte(low), read_hex_byte(high)) {
        (Some(a), Some(b)) => Some(i16_from_le(a, b)),
        _ => None,
    }
}

pub fn parse_i16_metric(low: &str, high: &str) -> (r: Option<(i16, bool)>)
    ensures
        r == field_metric(low@, high@),
{
    match parse_i16(low, high) {
        Some(v) => if v == i16::MIN {
            Some((0, false))
        } else {
            Some((v, true))
        },
        None => None,
    }
}

pub fn parse_i32(bytes: &[&str], start: usize) -> (r: Option<i32>)
    requires
        start + 4 <= bytes@.len(),
    ensures
        r == field_i32(texts_of(bytes@), start as int),
{
    let a = read_hex_byte(bytes[start]);
    let b = read_hex_byte(bytes[start + 1]);
    let c = read_hex_byte(bytes[start + 2]);
    let d = read_hex_byte(bytes[start + 3]);
    match (a, b, c, d) {
        (Some(a), Some(b), Some(c), Some(d)) => Some(i32_from_le(a, b, c, d)),
        _ => None,
    }
}

fn metric_or_invalid_exec(m: Option<(i16, bool)>) -> (r: (i16, bool))
    ensures
        r == metric_or_invalid(m),
{
    match m {
        Some(p) => p,
        None => (0, false),
    }
}

fn metric_value_exec(m: Option<(i16, bool)>) -> (r: i16)
    ensures
        r == metric_value(m),
{
    match m {
        Some(p) => p.0,
        None => 0,
    }
}

fn bit_of(m: u8, k: u32) -> (r: bool)
    requires
        k < 8,
    ensures
        r == bit(m, k as nat),
{
    let d: u32 = if k == 0 {
        1
    } else if k == 1 {
        2
    } else if k == 2 {
        4
    } else if k == 3 {
        8
    } else if k == 4 {
        16
    } else if k == 5 {
        32
    } else if k == 6 {
        64
    } else {
        128
    };
    (m as u32 / d) % 2 == 1
}

// ------------------------------------------------------------------
// Frames
// ------------------------------------------------------------------

pub fn parse_sensor_data(bytes: &[&str]) -> (r: Result<SensorData, String>)
    ensures
        r is Err <==> bytes@.len() < 17,
        r matches Err(e) ==> e@ == "insufficient data for parsing sensor data"@,
        r matches Ok(d) ==> {
            let f = texts_of(bytes@);
            &&& string_texts(d.raw_data@) == f
            &&& d.ball_ready == (eq_ignore_case(f[3], "01"@) || eq_ignore_case(f[3], "02"@))
            &&& d.ball_detected == eq_ignore_case(f[4], "01"@)
            &&& d.position_x == i32_or_zero(field_i32(f, 5))
            &&& d.position_y == i32_or_zero(field_i32(f, 9))
            &&& d.position_z == i32_or_zero(field_i32(f, 13))
        },
{
    if bytes.len() < 17 {
        return Err(text_of("insufficient data for parsing sensor data"));
    }
    let one = chars_of("01");
    let two = chars_of("02");
    let f3 = chars_of(bytes[3]);
    let f4 = chars_of(bytes[4]);
    let ball_ready = same_text_ignore_case(&f3, &one) || same_text_ignore_case(&f3, &two);
    let ball_detected = same_text_ignore_case(&f4, &one);
    let x = parse_i32(bytes, 5);
    let y = parse_i32(bytes, 9);
    let z = parse_i32(bytes, 13);
    Ok(
        SensorData {
            raw_data: raw(bytes),
            ball_ready,
            ball_detected,
            position_x: match x {
                Some(v) => v,
                None => 0,
            },
            position_y: match y {
                Some(v) => v,
                None => 0,
            },
            position_z: match z {
                Some(v) => v,
                None => 0,
            },
        },
    )
}

/// Decodes a ball-metrics frame. Every value is read from its pair of fields;
/// the ball speed and the spins carry a validity flag that is false when the
/// fields do not decode or hold the sentinel. The total spin takes the sign
/// of the backspin: it is negated when the backspin is negative.
pub fn decode_shot_ball_metrics(bytes: &[&str]) -> (r: Result<RawBallMetrics, String>)
    ensures
        decodes_ball_frame(texts_of(bytes@), r),
{
    if bytes.len() < 17 {
        return Err(text_of("insufficient data for parsing ball metrics"));
    }
    let speed = metric_or_invalid_exec(parse_i16_metric(bytes[3], bytes[4]));
    let vertical = metric_value_exec(parse_i16_metric(bytes[5], bytes[6]));
    let horizontal = metric_value_exec(parse_i16_metric(bytes[7], bytes[8]));
    let total = metric_or_invalid_exec(parse_i16_metric(bytes[9], bytes[10]));
    let axis = metric_or_invalid_exec(parse_i16_metric(bytes[11], bytes[12]));
    let back = metric_or_invalid_exec(parse_i16_metric(bytes[13], bytes[14]));
    let side = metric_or_invalid_exec(parse_i16_metric(bytes[15], bytes[16]));
    let total_spin = if back.0 < 0 {
        -total.0
    } else {
        total.0
    };
    Ok(
        RawBallMetrics {
            raw_data: raw(bytes),
            ball_speed_mps_x100: speed.0,
            vertical_angle_x100: vertical,
            horizontal_angle_x100: horizontal,
            total_spin_rpm: total_spin,
            spin_axis_x100: axis.0,
            backspin_rpm: back.0,
            sidespin_rpm: side.0,
            is_ball_speed_valid: speed.1,
            is_total_spin_valid: total.1,
            is_spin_axis_valid: axis.1,
            is_backspin_valid: back.1,
            is_sidespin_valid: side.1,
            validity_bitmask: Some(text_of(bytes[2])),
        },
    )
}

/// Omni devices report in the frame's validity byte which ball values they
/// measured: bit 0 ball speed, bit 1 total spin, bit 2 spin axis, bit 4
/// backspin, bit 5 sidespin. A value stays valid only when its bit is set; a
/// missing or undecodable validity byte leaves the metrics unchanged.
pub fn apply_omni_ball_validity_bitmask(metrics: &mut RawBallMetrics)
    ensures
        ({
            let mask = match old(metrics).validity_bitmask {
                Some(b) => hex_byte(b@),
                None => None,
            };
            match mask {
                None => *final(metrics) == *old(metrics),
                Some(m) => *final(metrics) == (RawBallMetrics {
                    is_ball_speed_valid: old(metrics).is_ball_speed_valid && bit(m, 0),
                    is_total_spin_valid: old(metrics).is_total_spin_valid && bit(m, 1),
                    is_spin_axis_valid: old(metrics).is_spin_axis_valid && bit(m, 2),
                    is_backspin_valid: old(metrics).is_backspin_valid && bit(m, 4),
                    is_sidespin_valid: old(metrics).is_sidespin_valid && bit(m, 5),
                    ..*old(metrics)
                }),
            }
        }),
{
    let mask = match &metrics.validity_bitmask {
        Some(b) => read_hex_byte(b.as_str()),
        None => None,
    };
    if let Some(m) = mask {
        metrics.is_ball_speed_valid = metrics.is_ball_speed_valid && bit_of(m, 0);
        metrics.is_total_spin_valid = metrics.is_total_spin_valid && bit_of(m, 1);
        metrics.is_spin_axis_valid = metrics.is_spin_axis_valid && bit_of(m, 2);
        metrics.is_backspin_valid = metrics.is_backspin_valid && bit_of(m, 4);
        metrics.is_sidespin_valid = metrics.is_sidespin_valid && bit_of(m, 5);
    }
}

fn empty_club_metrics(raw_data: Vec<String>) -> (r: RawClubMetrics)
    ensures
        r == (RawClubMetrics {
            raw_data,
            path_angle_x100: 0,
            face_angle_x100: 0,
            attack_angle_x100: 0,
            dynamic_loft_angle_x100: 0,
            impact_horizontal_x100: 0,
            impact_vertical_x100: 0,
            club_speed_x100: 0,
            smash_factor_x100: 0,
            is_path_angle_valid: false,
            is_face_angle_valid: false,
            is_attack_angle_valid: false,
            is_dynamic_loft_valid: false,
            is_impact_horizontal_valid: false,
            is_impact_vertical_valid: false,
            is_club_speed_valid: false,
            is_smash_factor_valid: false,
        }),
{
    RawClubMetrics {
        raw_data,
        path_angle_x100: 0,
        face_angle_x100: 0,
        attack_angle_x100: 0,
        dynamic_loft_angle_x100: 0,
        impact_horizontal_x100: 0,
        impact_vertical_x100: 0,
        club_speed_x100: 0,
        smash_factor_x100: 0,
        is_path_angle_valid: false,
        is_face_angle_valid: false,
        is_attack_angle_valid: false,
        is_dynamic_loft_valid: false,
        is_impact_horizontal_valid: false,
        is_impact_vertical_valid: false,
        is_club_speed_valid: false,
        is_smash_factor_valid: false,
    }
}

/// Decodes a regular club-metrics frame: path, face, attack and dynamic loft
/// angles from fields 3 to 10; the other values are reported absent.
pub fn decode_shot_club_metrics(bytes: &[&str]) -> (r: Result<RawClubMetrics, String>)
    ensures
        decodes_club_frame(texts_of(bytes@), r),
{
    if bytes.len() < 11 {
        return Err(text_of("insufficient data for parsing club metrics"));
    }
    let ghost f = texts_of(bytes@);
    let mut m = empty_club_metrics(raw(bytes));
    let path = metric_or_invalid_exec(parse_i16_metric(bytes[3], bytes[4]));
    let face = metric_or_invalid_exec(parse_i16_metric(bytes[5], bytes[6]));
    let attack = metric_or_invalid_exec(parse_i16_metric(bytes[7], bytes[8]));
    let loft = metric_or_invalid_exec(parse_i16_metric(bytes[9], bytes[10]));
    m.path_angle_x100 = path.0;
    m.is_path_angle_valid = path.1;
    m.face_angle_x100 = face.0;
    m.is_face_angle_valid = face.1;
    m.attack_angle_x100 = attack.0;
    m.is_attack_angle_valid = attack.1;
    m.dynamic_loft_angle_x100 = loft.0;
    m.is_dynamic_loft_valid = loft.1;
    assert(club_values(m)[0] == regular_club_value(f, 0));
    assert(club_values(m)[1] == regular_club_value(f, 1));
    assert(club_values(m)[2] == regular_club_value(f, 2));
    assert(club_values(m)[3] == regular_club_value(f, 3));
    assert(club_values(m)[4] == regular_club_value(f, 4));
    assert(club_values(m)[5] == regular_club_value(f, 5));
    assert(club_values(m)[6] == regular_club_value(f, 6));
    assert(club_values(m)[7] == regular_club_value(f, 7));
    Ok(m)
}

/// Stores value `k` of a club frame.
fn set_club_value(m: &mut RawClubMetrics, k: usize, value: i16, valid: bool)
    requires
        k < 8,
    ensures
        final(m).raw_data == old(m).raw_data,
        forall|j: int|
            0 <= j < 8 ==> club_values(*final(m))[j] == if j == k {
                (value, valid)
            } else {
                club_values(*old(m))[j]
            },
{
    if k == 0 {
        m.path_angle_x100 = value;
        m.is_path_angle_valid = valid;
    } else if k == 1 {
        m.face_angle_x100 = value;
        m.is_face_angle_valid = valid;
    } else if k == 2 {
        m.attack_angle_x100 = value;
        m.is_attack_angle_valid = valid;
    } else if k == 3 {
        m.dynamic_loft_angle_x100 = value;
        m.is_dynamic_loft_valid = valid;
    } else if k == 4 {
        m.impact_horizontal_x100 = value;
        m.is_impact_horizontal_valid = valid;
    } else if k == 5 {
        m.impact_vertical_x100 = value;
        m.is_impact_vertical_valid = valid;
    } else if k == 6 {
        m.club_speed_x100 = value;
        m.is_club_speed_valid = valid;
    } else {
        m.smash_factor_x100 = value;
        m.is_smash_factor_valid = valid;
    }
}

/// Decodes an Omni club-metrics frame: eight values from fields 3 to 18,
/// each gated by its bit of the validity byte in field 2.
pub fn decode_omni_shot_club_metrics(bytes: &[&str]) -> (r: Result<RawClubMetrics, String>)
    ensures
        decodes_omni_club_frame(texts_of(bytes@), r),
{
    if bytes.len() < 19 {
        let mut msg: Vec<char> = Vec::new();
        push_str(&mut msg, "insufficient data for parsing Omni club metrics (need 19, got ");
        push_decimal(&mut msg, bytes.len() as u64);
        push_str(&mut msg, ")");
        return Err(string_from_chars(&msg));
    }
    let ghost f = texts_of(bytes@);
    let validity: u8 = match read_hex_byte(bytes[2]) {
        Some(v) => v,
        None => 0,
    };
    let mut m = empty_club_metrics(raw(bytes));
    let mut k: usize = 0;
    while k < 8
        invariant
            k <= 8,
            bytes@.len() >= 19,
            f == texts_of(bytes@),
            validity == (match hex_byte(f[2]) {
                Some(v) => v,
                None => 0u8,
            }),
            string_texts(m.raw_data@) == f,
            forall|j: int|
                0 <= j < 8 ==> club_values(m)[j] == if j < k {
                    omni_club_value(f, j)
                } else {
                    (0i16, false)
                },
        decreases 8 - k,
    {
        let bitmask_valid = bit_of(validity, k as u32);
        let parsed = parse_i16_metric(bytes[3 + 2 * k], bytes[4 + 2 * k]);
        assert(f[3 + 2 * k] == bytes@[3 + 2 * k]@);
        assert(f[4 + 2 * k] == bytes@[4 + 2 * k]@);
        if let Some((value, sentinel_valid)) = parsed {
            set_club_value(&mut m, k, value, bitmask_valid && sentinel_valid);
        }
        k = k + 1;
    }
    Ok(m)
}

/// Decodes an alignment frame: the aim angle from fields 5 and 6 (0 when they
/// do not decode); the device counts as aligned within two degrees.
pub fn decode_alignment_data(bytes: &[&str]) -> (r: Result<RawAlignmentData, String>)
    ensures
        r is Err <==> bytes@.len() < 7,
        r matches Err(e) ==> e@
            == "insufficient data for parsing alignment data (need at least 7 bytes, got "@
            + decimal_text(bytes@.len()) + ")"@,
        r matches Ok(a) ==> {
            let f = texts_of(bytes@);
            let aim: i16 = match field_i16(f[5], f[6]) {
                Some(v) => v,
                None => 0i16,
            };
            &&& string_texts(a.raw_data@) == f
            &&& a.aim_angle_x100 == aim
            &&& a.is_aligned == (-200 <= aim <= 200)
        },
{
    if bytes.len() < 7 {
        let mut msg: Vec<char> = Vec::new();
        push_str(
            &mut msg,
            "insufficient data for parsing alignment data (need at least 7 bytes, got ",
        );
        push_decimal(&mut msg, bytes.len() as u64);
        push_str(&mut msg, ")");
        return Err(string_from_chars(&msg));
    }
    let aim: i16 = match parse_i16(bytes[5], bytes[6]) {
        Some(v) => v,
        None => 0,
    };
    Ok(RawAlignmentData { raw_data: raw(bytes), aim_angle_x100: aim, is_aligned: -200 <= aim && aim <= 200 })
}

/// Omni devices advertise manufacturer data containing `3033303041`
/// (compared without regard to ASCII case); every other device is a Home.
pub fn detect_device_type(mfg_data_hex: &str) -> (r: DeviceType)
    ensures
        r == (if mfg_data_hex@.len() > 0 && has_infix(upper_text(mfg_data_hex@), "3033303041"@) {
            DeviceType::Omni
        } else {
            DeviceType::Home
        }),
{
    let data = chars_of(mfg_data_hex);
    let marker = chars_of("3033303041");
    if data.len() > 0 && contains(&to_upper(&data), &marker) {
        DeviceType::Omni
    } else {
        DeviceType::Home
    }
}

// ------------------------------------------------------------------
// Laws of the frame layout
// ------------------------------------------------------------------

/// What the two hex fields `lo`, `hi` hold as a measurement: their
/// little-endian `i16` and `true`; `(0, false)` for the "not measured" value
/// `i16::MIN` or for fields that are not hex bytes.
pub open spec fn reading(lo: Seq<char>, hi: Seq<char>) -> (i16, bool) {
    match (hex_byte(lo), hex_byte(hi)) {
        (Some(a), Some(b)) => if le_i16(a, b) == i16::MIN {
            (0i16, false)
        } else {
            (le_i16(a, b), true)
        },
        _ => (0i16, false),
    }
}

/// Bit `k` of the validity byte in field 2 (no bits when it is not a hex
/// byte), written out as a division.
pub open spec fn validity_bit(f: Seq<Seq<char>>, weight: nat) -> bool {
    let v: nat = match hex_byte(f[2]) {
        Some(b) => b as nat,
        None => 0,
    };
    (v / weight) % 2 == 1
}

/// A decoded ball frame reads each value from its own fields: speed 3-4,
/// launch angles 5-6 and 7-8, total spin 9-10, spin axis 11-12, backspin
/// 13-14, sidespin 15-16. The total spin carries the backspin's sign: it is
/// the total-spin field as read when the backspin read is zero or more
/// (whatever the sidespin), and its negation exactly when the backspin read
/// is negative.
pub proof fn law_ball_frame_layout(f: Seq<Seq<char>>, r: Result<RawBallMetrics, String>)
    requires
        decodes_ball_frame(f, r),
        r is Ok,
    ensures
        ({
            let m = r->Ok_0;
            let total = reading(f[9], f[10]);
            let back = reading(f[13], f[14]);
            &&& m.ball_speed_mps_x100 == reading(f[3], f[4]).0
            &&& m.is_ball_speed_valid == reading(f[3], f[4]).1
            &&& m.vertical_angle_x100 == reading(f[5], f[6]).0
            &&& m.horizontal_angle_x100 == reading(f[7], f[8]).0
            &&& back.0 >= 0 ==> m.total_spin_rpm == total.0
            &&& back.0 < 0 ==> m.total_spin_rpm == -total.0
            &&& m.is_total_spin_valid == total.1
            &&& m.spin_axis_x100 == reading(f[11], f[12]).0
            &&& m.is_spin_axis_valid == reading(f[11], f[12]).1
            &&& m.backspin_rpm == back.0 && m.is_backspin_valid == back.1
            &&& m.sidespin_rpm == reading(f[15], f[16]).0
            &&& m.is_sidespin_valid == reading(f[15], f[16]).1
        }),
{
}

/// A decoded regular club frame reads path from fields 3-4, face 5-6,
/// attack 7-8 and dynamic loft 9-10; it carries no other value.
pub proof fn law_club_frame_layout(f: Seq<Seq<char>>, r: Result<RawClubMetrics, String>)
    requires
        decodes_club_frame(f, r),
        r is Ok,
    ensures
        ({
            let m = r->Ok_0;
            &&& (m.path_angle_x100, m.is_path_angle_valid) == reading(f[3], f[4])
            &&& (m.face_angle_x100, m.is_face_angle_valid) == reading(f[5], f[6])
            &&& (m.attack_angle_x100, m.is_attack_angle_valid) == reading(f[7], f[8])
            &&& (m.dynamic_loft_angle_x100, m.is_dynamic_loft_valid) == reading(f[9], f[10])
            &&& !m.is_impact_horizontal_valid && !m.is_impact_vertical_valid
            &&& !m.is_club_speed_valid && !m.is_smash_factor_valid
        }),
{
    let m = r->Ok_0;
    assert(club_values(m)[0] == regular_club_value(f, 0));
    assert(club_values(m)[1] == regular_club_value(f, 1));
    assert(club_values(m)[2] == regular_club_value(f, 2));
    assert(club_values(m)[3] == regular_club_value(f, 3));
    assert(club_values(m)[4] == regular_club_value(f, 4));
    assert(club_values(m)[5] == regular_club_value(f, 5));
    assert(club_values(m)[6] == regular_club_value(f, 6));
    assert(club_values(m)[7] == regular_club_value(f, 7));
}

/// A decoded Omni club frame reads path from fields 3-4, face 5-6, attack
/// 7-8, dynamic loft 9-10, horizontal impact 11-12, vertical impact 13-14,
/// club speed 15-16 and smash factor 17-18; each is valid when its reading
/// is and bit 0, 1, ..., 7 of the validity byte (field 2) is set.
pub proof fn law_omni_club_frame_layout(f: Seq<Seq<char>>, r: Result<RawClubMetrics, String>)
    requires
        decodes_omni_club_frame(f, r),
        r is Ok,
    ensures
        ({
            let m = r->Ok_0;
            &&& m.path_angle_x100 == reading(f[3], f[4]).0
            &&& m.is_path_angle_valid == (reading(f[3], f[4]).1 && validity_bit(f, 1))
            &&& m.face_angle_x100 == reading(f[5], f[6]).0
            &&& m.is_face_angle_valid == (reading(f[5], f[6]).1 && validity_bit(f, 2))
            &&& m.attack_angle_x100 == reading(f[7], f[8]).0
            &&& m.is_attack_angle_valid == (reading(f[7], f[8]).1 && validity_bit(f, 4))
            &&& m.dynamic_loft_angle_x100 == reading(f[9], f[10]).0
            &&& m.is_dynamic_loft_valid == (reading(f[9], f[10]).1 && validity_bit(f, 8))
            &&& m.impact_horizontal_x100 == reading(f[11], f[12]).0
            &&& m.is_impact_horizontal_valid == (reading(f[11], f[12]).1 && validity_bit(f, 16))
            &&& m.impact_vertical_x100 == reading(f[13], f[14]).0
            &&& m.is_impact_vertical_valid == (reading(f[13], f[14]).1 && validity_bit(f, 32))
            &&& m.club_speed_x100 == reading(f[15], f[16]).0
            &&& m.is_club_speed_valid == (reading(f[15], f[16]).1 && validity_bit(f, 64))
            &&& m.smash_factor_x100 == reading(f[17], f[18]).0
            &&& m.is_smash_factor_valid == (reading(f[17], f[18]).1 && validity_bit(f, 128))
        }),
{
    let m = r->Ok_0;
    assert(club_values(m)[0] == omni_club_value(f, 0));
    assert(club_values(m)[1] == omni_club_value(f, 1));
    assert(club_values(m)[2] == omni_club_value(f, 2));
    assert(club_values(m)[3] == omni_club_value(f, 3));
    assert(club_values(m)[4] == omni_club_value(f, 4));
    assert(club_values(m)[5] == omni_club_value(f, 5));
    assert(club_values(m)[6] == omni_club_value(f, 6));
    assert(club_values(m)[7] == omni_club_value(f, 7));
}

} // verus!
