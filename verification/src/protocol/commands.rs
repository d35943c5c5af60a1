//! Command frames sent to the launch monitor, rendered as lower-case hex text.
//!
//! Every command is a short byte frame that starts with `0x11`, a command code
//! and the caller's sequence number; the connector writes it as two lower-case
//! hex characters per byte. Each function's contract names the frame it sends.
use vstd::prelude::*;

use crate::protocol::parser::{field_i32, le_i32};
use crate::text::{
    all_digits, digit_or_zero, digit_value, digits_value, hex_byte, hex_digit, hex_encode, hex_pair, hex_text,
    string_from_chars,
};

verus! {

#[derive(Debug, Clone, Copy, PartialEq, Eq, Structural)]
pub enum Handedness {
    Right,
    Left,
}

#[derive(Debug, Clone, Copy, PartialEq, Eq, Structural)]
pub enum DetectBallMode {
    Deactivate,
    Activate,
    ActivateAlignmentMode,
}

#[derive(Debug, Clone, Copy, PartialEq, Eq, Structural)]
pub enum SpinMode {
    Standard,
    Advanced,
}

/// The clubs the launch monitor knows, each with the two-byte code it uses in
/// regular club selection and the one it uses in swing-stick mode.
#[allow(non_camel_case_types)]
#[derive(Debug, Clone, Copy, PartialEq, Eq, Structural)]
pub enum ClubType {
    PUTTER,
    DRIVER,
    WOOD_3,
    WOOD_5,
    WOOD_7,
    IRON_4,
    IRON_5,
    IRON_6,
    IRON_7,
    IRON_8,
    IRON_9,
    PITCHING_WEDGE,
    APPROACH_WEDGE,
    SAND_WEDGE,
    ALIGNMENT_STICK,
}

impl Handedness {
    pub open spec fn code(self) -> u8 {
        match self {
            Handedness::Right => 0,
            Handedness::Left => 1,
        }
    }

    pub fn byte(self) -> (r: u8)
        ensures
            r == self.code(),
    {
        match self {
            Handedness::Right => 0,
            Handedness::Left => 1,
        }
    }
}

impl DetectBallMode {
    pub open spec fn code(self) -> u8 {
        match self {
            DetectBallMode::Deactivate => 0,
            DetectBallMode::Activate => 1,
            DetectBallMode::ActivateAlignmentMode => 2,
        }
    }

    pub fn byte(self) -> (r: u8)
        ensures
            r == self.code(),
    {
        match self {
            DetectBallMode::Deactivate => 0,
            DetectBallMode::Activate => 1,
            DetectBallMode::ActivateAlignmentMode => 2,
        }
    }
}

impl SpinMode {
    pub open spec fn code(self) -> u8 {
        match self {
            SpinMode::Standard => 0,
            SpinMode::Advanced => 1,
        }
    }

    pub fn byte(self) -> (r: u8)
        ensures
            r == self.code(),
    {
        match self {
            SpinMode::Standard => 0,
            SpinMode::Advanced => 1,
        }
    }
}

impl ClubType {
    /// Club code used when selecting a club normally.
    pub open spec fn regular(self) -> (u8, u8) {
        match self {
            ClubType::PUTTER => (0x01, 0x07),
            ClubType::DRIVER => (0x02, 0x04),
            ClubType::WOOD_3 => (0x03, 0x05),
            ClubType::WOOD_5 => (0x05, 0x05),
            ClubType::WOOD_7 => (0x07, 0x05),
            ClubType::IRON_4 => (0x04, 0x06),
            ClubType::IRON_5 => (0x05, 0x06),
            ClubType::IRON_6 => (0x06, 0x06),
            ClubType::IRON_7 => (0x07, 0x06),
            ClubType::IRON_8 => (0x08, 0x06),
            ClubType::IRON_9 => (0x09, 0x06),
            ClubType::PITCHING_WEDGE => (0x0a, 0x06),
            ClubType::APPROACH_WEDGE => (0x0b, 0x06),
            ClubType::SAND_WEDGE => (0x0c, 0x06),
            ClubType::ALIGNMENT_STICK => (0x00, 0x08),
        }
    }

    /// Club code used in swing-stick mode.
    pub open spec fn swing_stick(self) -> (u8, u8) {
        match self {
            ClubType::PUTTER => (0x01, 0x03),
            ClubType::DRIVER => (0x02, 0x02),
            ClubType::WOOD_3 => (0x03, 0x01),
            ClubType::WOOD_5 => (0x05, 0x01),
            ClubType::WOOD_7 => (0x07, 0x01),
            ClubType::IRON_4 => (0x04, 0x00),
            ClubType::IRON_5 => (0x05, 0x00),
            ClubType::IRON_6 => (0x06, 0x00),
            ClubType::IRON_7 => (0x07, 0x00),
            ClubType::IRON_8 => (0x09, 0x00),
            ClubType::IRON_9 => (0x09, 0x00),
            ClubType::PITCHING_WEDGE => (0x0a, 0x00),
            ClubType::APPROACH_WEDGE => (0x0b, 0x00),
            ClubType::SAND_WEDGE => (0x0c, 0x00),
            ClubType::ALIGNMENT_STICK => (0x00, 0x08),
        }
    }

    pub fn regular_code(self) -> (r: (u8, u8))
        ensures
            r == self.regular(),
    {
        match self {
            ClubType::PUTTER => (0x01, 0x07),
            ClubType::DRIVER => (0x02, 0x04),
            ClubType::WOOD_3 => (0x03, 0x05),
            ClubType::WOOD_5 => (0x05, 0x05),
            ClubType::WOOD_7 => (0x07, 0x05),
            ClubType::IRON_4 => (0x04, 0x06),
            ClubType::IRON_5 => (0x05, 0x06),
            ClubType::IRON_6 => (0x06, 0x06),
            ClubType::IRON_7 => (0x07, 0x06),
            ClubType::IRON_8 => (0x08, 0x06),
            ClubType::IRON_9 => (0x09, 0x06),
            ClubType::PITCHING_WEDGE => (0x0a, 0x06),
            ClubType::APPROACH_WEDGE => (0x0b, 0x06),
            ClubType::SAND_WEDGE => (0x0c, 0x06),
            ClubType::ALIGNMENT_STICK => (0x00, 0x08),
        }
    }

    pub fn swing_stick_code(self) -> (r: (u8, u8))
        ensures
            r == self.swing_stick(),
    {
        match self {
            ClubType::PUTTER => (0x01, 0x03),
            ClubType::DRIVER => (0x02, 0x02),
            ClubType::WOOD_3 => (0x03, 0x01),
            ClubType::WOOD_5 => (0x05, 0x01),
            ClubType::WOOD_7 => (0x07, 0x01),
            ClubType::IRON_4 => (0x04, 0x00),
            ClubType::IRON_5 => (0x05, 0x00),
            ClubType::IRON_6 => (0x06, 0x00),
            ClubType::IRON_7 => (0x07, 0x00),
            ClubType::IRON_8 => (0x09, 0x00),
            ClubType::IRON_9 => (0x09, 0x00),
            ClubType::PITCHING_WEDGE => (0x0a, 0x00),
            ClubType::APPROACH_WEDGE => (0x0b, 0x00),
            ClubType::SAND_WEDGE => (0x0c, 0x00),
            ClubType::ALIGNMENT_STICK => (0x00, 0x08),
        }
    }
}

// ------------------------------------------------------------------
// Frames
// ------------------------------------------------------------------

pub open spec fn heartbeat_frame(sequence: u8) -> Seq<u8> {
    seq![0x11u8, 0x83u8, sequence, 0u8, 0u8, 0u8, 0u8, 0u8]
}

pub open spec fn detect_ball_frame(sequence: u8, mode: DetectBallMode, spin: SpinMode) -> Seq<u8> {
    seq![0x11u8, 0x81u8, sequence, mode.code(), (0x10 + spin.code()) as u8, 0u8, 0u8, 0u8, 0u8]
}

pub open spec fn club_frame(sequence: u8, club: ClubType, hand: Handedness) -> Seq<u8> {
    seq![
        0x11u8,
        0x82u8,
        sequence,
        club.regular().0,
        club.regular().1,
        hand.code(),
        0u8,
        0u8,
        0u8,
    ]
}

/// Omni club selection: the club number, then the regular selector lowered
/// by 4 (never below 0), then the handedness.
pub open spec fn omni_club_frame(sequence: u8, club: ClubType, hand: Handedness) -> Seq<u8> {
    let sel = club.regular().1;
    let omni_sel: u8 = if sel >= 4 {
        (sel - 4) as u8
    } else {
        0
    };
    seq![0x11u8, 0x82u8, sequence, club.regular().0, omni_sel, hand.code(), 0u8, 0u8, 0u8]
}

pub open spec fn swing_stick_frame(sequence: u8, club: ClubType, hand: Handedness) -> Seq<u8> {
    seq![
        0x11u8,
        0x82u8,
        sequence,
        club.swing_stick().0,
        club.swing_stick().1,
        hand.code(),
        0u8,
        0u8,
    ]
}

/// Two's-complement little-endian bytes of `a` (what `i32::to_le_bytes` gives).
pub open spec fn le_bytes_i32(a: i32) -> Seq<u8> {
    let u: int = if a < 0 {
        a + 0x1_0000_0000
    } else {
        a as int
    };
    seq![
        (u % 256) as u8,
        ((u / 256) % 256) as u8,
        ((u / 65536) % 256) as u8,
        (u / 16777216) as u8,
    ]
}

/// Alignment frame carrying the target angle in hundredths of a degree.
pub open spec fn alignment_frame(sequence: u8, confirm: u8, angle_hundredths: i32) -> Seq<u8> {
    seq![0x11u8, 0x85u8, sequence, confirm] + le_bytes_i32(angle_hundredths)
}

pub open spec fn request_club_metrics_frame(sequence: u8) -> Seq<u8> {
    seq![0x11u8, 0x87u8, sequence, 0u8, 0u8, 0u8, 0u8, 0u8, 0u8]
}

pub open spec fn os_version_frame(sequence: u8) -> Seq<u8> {
    seq![0x11u8, 0x92u8, sequence, 0u8, 0u8, 0u8, 0u8, 0u8]
}

pub open spec fn charge_frame(sequence: u8) -> Seq<u8> {
    seq![0x11u8, 0x86u8, sequence, 0u8, 0u8, 0u8, 0u8, 0u8]
}

/// Omni units: a zero distance unit is sent as marker 0 with sub-unit 0,
/// any other as marker 1 followed by the unit.
pub open spec fn omni_units_frame(sequence: u8, speed_unit: u8, distance_unit: u8) -> Seq<u8> {
    let marker: u8 = if distance_unit > 0 {
        1
    } else {
        0
    };
    seq![0x11u8, 0x88u8, sequence, speed_unit, marker, distance_unit, 0u8, 0u8]
}

pub open spec fn omni_green_speed_frame(sequence: u8, green_speed: u8) -> Seq<u8> {
    seq![0x11u8, 0x89u8, sequence, green_speed, 0u8, 0u8, 0u8, 0u8]
}

/// The adjustment is sent offset by 100, wrapped to a byte.
pub open spec fn carry_adjustment_byte(adjustment: i8) -> u8 {
    ((adjustment + 100) % 256) as u8
}

pub open spec fn omni_carry_adjustment_frame(sequence: u8, adjustment: i8) -> Seq<u8> {
    seq![0x11u8, 0x8au8, sequence, carry_adjustment_byte(adjustment), 0u8, 0u8, 0u8, 0u8]
}

pub open spec fn omni_handed_frame(sequence: u8, hand: Handedness) -> Seq<u8> {
    seq![0x11u8, 0x82u8, sequence, 0x00u8, 0x63u8, hand.code(), 0u8, 0u8, 0u8]
}

// ------------------------------------------------------------------
// Commands
// ------------------------------------------------------------------

/// Frame text: the hex rendering of `frame`.
fn frame_text(frame: &Vec<u8>) -> (r: String)
    ensures
        r@ == hex_text(frame@),
{
    let chars = hex_encode(frame);
    string_from_chars(&chars)
}

pub fn heartbeat_command(sequence: u8) -> (r: String)
    ensures
        r@ == hex_text(heartbeat_frame(sequence)),
{
    let frame = vec![0x11u8, 0x83u8, sequence, 0u8, 0u8, 0u8, 0u8, 0u8];
    assert(frame@ =~= heartbeat_frame(sequence));
    frame_text(&frame)
}

pub fn detect_ball_command(sequence: u8, mode: DetectBallMode, spin_mode: SpinMode) -> (r: String)
    ensures
        r@ == hex_text(detect_ball_frame(sequence, mode, spin_mode)),
{
    let frame = vec![
        0x11u8,
        0x81u8,
        sequence,
        mode.byte(),
        0x10u8 + spin_mode.byte(),
        0u8,
        0u8,
        0u8,
        0u8,
    ];
    assert(frame@ =~= detect_ball_frame(sequence, mode, spin_mode));
    frame_text(&frame)
}

pub fn club_command(sequence: u8, club: ClubType, handedness: Handedness) -> (r: String)
    ensures
        r@ == hex_text(club_frame(sequence, club, handedness)),
{
    let (a, b) = club.regular_code();
    let frame = vec![0x11u8, 0x82u8, sequence, a, b, handedness.byte(), 0u8, 0u8, 0u8];
    assert(frame@ =~= club_frame(sequence, club, handedness));
    frame_text(&frame)
}

pub fn omni_club_command(sequence: u8, club: ClubType, handedness: Handedness) -> (r: String)
    ensures
        r@ == hex_text(omni_club_frame(sequence, club, handedness)),
{
    let (club_number, club_sel) = club.regular_code();
    let omni_sel = club_sel.saturating_sub(4);
    let frame = vec![
        0x11u8,
        0x82u8,
        sequence,
        club_number,
        omni_sel,
        handedness.byte(),
        0u8,
        0u8,
        0u8,
    ];
    assert(frame@ =~= omni_club_frame(sequence, club, handedness));
    frame_text(&frame)
}

pub fn swing_stick_command(sequence: u8, club: ClubType, handedness: Handedness) -> (r: String)
    ensures
        r@ == hex_text(swing_stick_frame(sequence, club, handedness)),
{
    let (a, b) = club.swing_stick_code();
    let frame = vec![0x11u8, 0x82u8, sequence, a, b, handedness.byte(), 0u8, 0u8];
    assert(frame@ =~= swing_stick_frame(sequence, club, handedness));
    frame_text(&frame)
}

/// Little-endian two's-complement bytes of `a`.
pub fn le_bytes(a: i32) -> (r: Vec<u8>)
    ensures
        r@ == le_bytes_i32(a),
{
    let u: u64 = if a < 0 {
        (a as i64 + 0x1_0000_0000i64) as u64
    } else {
        a as u64
    };
    let r = vec![
        (u % 256) as u8,
        ((u / 256) % 256) as u8,
        ((u / 65536) % 256) as u8,
        (u / 16777216) as u8,
    ];
    assert(r@ =~= le_bytes_i32(a));
    r
}

/// Alignment command with the target angle given in hundredths of a degree.
pub fn alignment_command_hundredths(sequence: u8, confirm: u8, angle_hundredths: i32) -> (r:
    String)
    ensures
        r@ == hex_text(alignment_frame(sequence, confirm, angle_hundredths)),
{
    let mut frame = vec![0x11u8, 0x85u8, sequence, confirm];
    let mut tail = le_bytes(angle_hundredths);
    frame.append(&mut tail);
    assert(frame@ =~= alignment_frame(sequence, confirm, angle_hundredths));
    frame_text(&frame)
}

/// Starts alignment: confirm 0 and a target angle of 0.
pub fn start_alignment_command(sequence: u8) -> (r: String)
    ensures
        r@ == hex_text(alignment_frame(sequence, 0, 0)),
{
    alignment_command_hundredths(sequence, 0, 0)
}

pub fn request_club_metrics_command(sequence: u8) -> (r: String)
    ensures
        r@ == hex_text(request_club_metrics_frame(sequence)),
{
    let frame = vec![0x11u8, 0x87u8, sequence, 0u8, 0u8, 0u8, 0u8, 0u8, 0u8];
    assert(frame@ =~= request_club_metrics_frame(sequence));
    frame_text(&frame)
}

pub fn get_os_version_command(sequence: u8) -> (r: String)
    ensures
        r@ == hex_text(os_version_frame(sequence)),
{
    let frame = vec![0x11u8, 0x92u8, sequence, 0u8, 0u8, 0u8, 0u8, 0u8];
    assert(frame@ =~= os_version_frame(sequence));
    frame_text(&frame)
}

pub fn get_charge_command(sequence: u8) -> (r: String)
    ensures
        r@ == hex_text(charge_frame(sequence)),
{
    let frame = vec![0x11u8, 0x86u8, sequence, 0u8, 0u8, 0u8, 0u8, 0u8];
    assert(frame@ =~= charge_frame(sequence));
    frame_text(&frame)
}

pub fn omni_set_units_command(sequence: u8, speed_unit: u8, distance_unit: u8) -> (r: String)
    ensures
        r@ == hex_text(omni_units_frame(sequence, speed_unit, distance_unit)),
{
    let (dist_marker, dist_sub) = if distance_unit > 0 {
        (1u8, distance_unit)
    } else {
        (0u8, 0u8)
    };
    let frame = vec![0x11u8, 0x88u8, sequence, speed_unit, dist_marker, dist_sub, 0u8, 0u8];
    assert(frame@ =~= omni_units_frame(sequence, speed_unit, distance_unit));
    frame_text(&frame)
}

pub fn omni_set_green_speed_command(sequence: u8, green_speed: u8) -> (r: String)
    ensures
        r@ == hex_text(omni_green_speed_frame(sequence, green_speed)),
{
    let frame = vec![0x11u8, 0x89u8, sequence, green_speed, 0u8, 0u8, 0u8, 0u8];
    assert(frame@ =~= omni_green_speed_frame(sequence, green_speed));
    frame_text(&frame)
}

pub fn omni_set_carry_distance_adjustment_command(sequence: u8, adjustment: i8) -> (r: String)
    ensures
        r@ == hex_text(omni_carry_adjustment_frame(sequence, adjustment)),
{
    let shifted: i16 = adjustment as i16 + 100;
    let encoded: u8 = if shifted < 0 {
        (shifted + 256) as u8
    } else {
        shifted as u8
    };
    assert(encoded == carry_adjustment_byte(adjustment));
    let frame = vec![0x11u8, 0x8au8, sequence, encoded, 0u8, 0u8, 0u8, 0u8];
    assert(frame@ =~= omni_carry_adjustment_frame(sequence, adjustment));
    frame_text(&frame)
}

pub fn omni_set_handed_command(sequence: u8, handedness: Handedness) -> (r: String)
    ensures
        r@ == hex_text(omni_handed_frame(sequence, handedness)),
{
    let frame = vec![0x11u8, 0x82u8, sequence, 0x00u8, 0x63u8, handedness.byte(), 0u8, 0u8, 0u8];
    assert(frame@ =~= omni_handed_frame(sequence, handedness));
    frame_text(&frame)
}

// ------------------------------------------------------------------
// Laws
// ------------------------------------------------------------------

proof fn lemma_hex_text_len(bytes: Seq<u8>)
    ensures
        hex_text(bytes).len() == 2 * bytes.len(),
    decreases bytes.len(),
{
    if bytes.len() > 0 {
        lemma_hex_text_len(bytes.drop_last());
    }
}

proof fn lemma_hex_text_pair(bytes: Seq<u8>, i: int)
    requires
        0 <= i < bytes.len(),
    ensures
        hex_text(bytes).subrange(2 * i, 2 * i + 2) == hex_pair(bytes[i]),
    decreases bytes.len(),
{
    let init = bytes.drop_last();
    lemma_hex_text_len(init);
    if i == bytes.len() - 1 {
        assert(hex_text(bytes).subrange(2 * i, 2 * i + 2) =~= hex_pair(bytes[i]));
    } else {
        lemma_hex_text_pair(init, i);
        assert(hex_text(bytes).subrange(2 * i, 2 * i + 2) =~= hex_text(init).subrange(
            2 * i,
            2 * i + 2,
        ));
    }
}

proof fn lemma_hex_digit_reads_back(n: int)
    requires
        0 <= n < 16,
    ensures
        digit_value(hex_digit(n), 16) == Some(n as nat),
        hex_digit(n) != '+',
{
    if n < 10 {
        assert(((0x30 + n) as char) as u32 == 0x30 + n);
    } else {
        assert(((0x61 + n - 10) as char) as u32 == 0x61 + n - 10);
    }
}

/// A byte written as two hex characters reads back as that byte.
pub proof fn lemma_hex_pair_reads_back(b: u8)
    ensures
        hex_byte(hex_pair(b)) == Some(b),
{
    let s = hex_pair(b);
    let hi = b as int / 16;
    let lo = b as int % 16;
    lemma_hex_digit_reads_back(hi);
    lemma_hex_digit_reads_back(lo);
    assert(s.drop_last() =~= seq![s[0]]);
    assert(seq![s[0]].drop_last() =~= Seq::<char>::empty());
    assert(all_digits(s, 16));
    let one = seq![s[0]];
    assert(digits_value(one.drop_last(), 16) == 0);
    assert(one.last() == s[0]);
    assert(digit_or_zero(s[0], 16) == hi);
    assert(digits_value(one, 16) == hi);
    assert(s.last() == s[1]);
    assert(digit_or_zero(s[1], 16) == lo);
    assert(digits_value(s, 16) == hi * 16 + lo);
}

/// Reading back a command: splitting any frame's text into two-character
/// fields and decoding each field as a hex byte (as the notification parser
/// does) gives the frame's bytes.
pub proof fn law_command_text_reads_back(frame: Seq<u8>, i: int)
    requires
        0 <= i < frame.len(),
    ensures
        hex_text(frame).len() == 2 * frame.len(),
        hex_byte(hex_text(frame).subrange(2 * i, 2 * i + 2)) == Some(frame[i]),
{
    lemma_hex_text_len(frame);
    lemma_hex_text_pair(frame, i);
    lemma_hex_pair_reads_back(frame[i]);
}

proof fn lemma_le_bytes_read_back(a: i32)
    ensures
        le_i32(le_bytes_i32(a)[0], le_bytes_i32(a)[1], le_bytes_i32(a)[2], le_bytes_i32(a)[3]) == a,
{
    let u: int = if a < 0 {
        a + 0x1_0000_0000
    } else {
        a as int
    };
    let x: u32 = u as u32;
    assert(x as int == u);
    assert((x % 256) + 256 * ((x / 256) % 256) + 65536 * ((x / 65536) % 256) + 16777216 * (x
        / 16777216) == x) by (bit_vector);
    assert(x / 16777216 < 256) by (bit_vector);
    let b = le_bytes_i32(a);
    assert(b[0] == u % 256);
    assert(b[1] == (u / 256) % 256);
    assert(b[2] == (u / 65536) % 256);
    assert(b[3] == u / 16777216);
    assert(b[0] + 256 * b[1] + 65536 * b[2] + 16777216 * b[3] == u);
}

/// The angle sent in an alignment command is the value that the notification
/// parser reads back from the command's text: its fields four to seven, as a
/// little-endian `i32`.
pub proof fn law_alignment_angle_reads_back(sequence: u8, confirm: u8, angle_hundredths: i32)
    ensures
        ({
            let frame = alignment_frame(sequence, confirm, angle_hundredths);
            let fields = Seq::new(
                frame.len(),
                |k: int| hex_text(frame).subrange(2 * k, 2 * k + 2),
            );
            field_i32(fields, 4) == Some(angle_hundredths)
        }),
{
    let frame = alignment_frame(sequence, confirm, angle_hundredths);
    let b = le_bytes_i32(angle_hundredths);
    assert(frame.len() == 8);
    law_command_text_reads_back(frame, 4);
    law_command_text_reads_back(frame, 5);
    law_command_text_reads_back(frame, 6);
    law_command_text_reads_back(frame, 7);
    assert(frame[4] == b[0] && frame[5] == b[1] && frame[6] == b[2] && frame[7] == b[3]);
    lemma_le_bytes_read_back(angle_hundredths);
}

/// A frame as every command sends it: `0x11`, then the command code, then
/// the sequence number.
pub open spec fn marked(frame: Seq<u8>, code: u8, sequence: u8) -> bool {
    frame.len() >= 3 && frame[0] == 0x11 && frame[1] == code && frame[2] == sequence
}

/// Every command frame starts with `0x11`, its command code and the caller's
/// sequence number: heartbeat `0x83`, ball detection `0x81`, club selection
/// and handedness `0x82`, alignment `0x85`, club-metrics request `0x87`,
/// OS version `0x92`, charge `0x86`, Omni units `0x88`, green speed `0x89`
/// and carry adjustment `0x8a`.
pub proof fn law_command_frames_are_marked(
    sequence: u8,
    mode: DetectBallMode,
    spin: SpinMode,
    club: ClubType,
    hand: Handedness,
    confirm: u8,
    angle_hundredths: i32,
    speed_unit: u8,
    distance_unit: u8,
    green_speed: u8,
    adjustment: i8,
)
    ensures
        marked(heartbeat_frame(sequence), 0x83, sequence),
        marked(detect_ball_frame(sequence, mode, spin), 0x81, sequence),
        marked(club_frame(sequence, club, hand), 0x82, sequence),
        marked(omni_club_frame(sequence, club, hand), 0x82, sequence),
        marked(swing_stick_frame(sequence, club, hand), 0x82, sequence),
        marked(alignment_frame(sequence, confirm, angle_hundredths), 0x85, sequence),
        marked(request_club_metrics_frame(sequence), 0x87, sequence),
        marked(os_version_frame(sequence), 0x92, sequence),
        marked(charge_frame(sequence), 0x86, sequence),
        marked(omni_units_frame(sequence, speed_unit, distance_unit), 0x88, sequence),
        marked(omni_green_speed_frame(sequence, green_speed), 0x89, sequence),
        marked(omni_carry_adjustment_frame(sequence, adjustment), 0x8a, sequence),
        marked(omni_handed_frame(sequence, hand), 0x82, sequence),
{
}

/// Different clubs are selected with different codes: no club can be
/// mistaken for another by the launch monitor.
pub proof fn law_regular_club_codes_are_distinct(a: ClubType, b: ClubType)
    requires
        a != b,
    ensures
        a.regular() != b.regular(),
        club_frame(0, a, Handedness::Right) != club_frame(0, b, Handedness::Right),
{
    match a {
        ClubType::PUTTER => {},
        ClubType::DRIVER => {},
        ClubType::WOOD_3 => {},
        ClubType::WOOD_5 => {},
        ClubType::WOOD_7 => {},
        ClubType::IRON_4 => {},
        ClubType::IRON_5 => {},
        ClubType::IRON_6 => {},
        ClubType::IRON_7 => {},
        ClubType::IRON_8 => {},
        ClubType::IRON_9 => {},
        ClubType::PITCHING_WEDGE => {},
        ClubType::APPROACH_WEDGE => {},
        ClubType::SAND_WEDGE => {},
        ClubType::ALIGNMENT_STICK => {},
    }
    assert(club_frame(0, a, Handedness::Right)[3] == a.regular().0);
    assert(club_frame(0, a, Handedness::Right)[4] == a.regular().1);
    assert(club_frame(0, b, Handedness::Right)[3] == b.regular().0);
    assert(club_frame(0, b, Handedness::Right)[4] == b.regular().1);
}

/// The number of an iron or wedge: 4 to 9 for the irons, then 10, 11 and 12
/// for the pitching, approach and sand wedges.
pub open spec fn iron_number(club: ClubType) -> Option<u8> {
    match club {
        ClubType::IRON_4 => Some(4u8),
        ClubType::IRON_5 => Some(5u8),
        ClubType::IRON_6 => Some(6u8),
        ClubType::IRON_7 => Some(7u8),
        ClubType::IRON_8 => Some(8u8),
        ClubType::IRON_9 => Some(9u8),
        ClubType::PITCHING_WEDGE => Some(10u8),
        ClubType::APPROACH_WEDGE => Some(11u8),
        ClubType::SAND_WEDGE => Some(12u8),
        _ => None,
    }
}

/// Selecting an iron or wedge sends its number as the club byte (byte 3 of
/// the frame) with the iron selector `0x06` after it, in regular and Omni
/// club selection alike (the Omni selector is `0x02`).
pub proof fn law_iron_selection_carries_the_club_number(sequence: u8, club: ClubType, hand: Handedness)
    requires
        iron_number(club) is Some,
    ensures
        club_frame(sequence, club, hand)[3] == iron_number(club)->Some_0,
        club_frame(sequence, club, hand)[4] == 0x06,
        omni_club_frame(sequence, club, hand)[3] == iron_number(club)->Some_0,
        omni_club_frame(sequence, club, hand)[4] == 0x02,
{
}

} // verus!
