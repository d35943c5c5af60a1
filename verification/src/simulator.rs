//! Talking to golf simulators over the GSPro Open Connect protocol: what each
//! kind of message says it carries, how shots are numbered, and how failed
//! sends to the two simulators are reported together.
use vstd::prelude::*;

use crate::text::{chars_of, push_str, string_from_chars};

verus! {

/// The `ShotDataOptions` block of an Open Connect message.
#[derive(Debug, Clone, Copy, PartialEq, Eq, Structural)]
pub struct ShotOptions {
    pub contains_ball_data: bool,
    pub contains_club_data: bool,
    pub launch_monitor_is_ready: Option<bool>,
    pub launch_monitor_ball_detected: Option<bool>,
}

impl ShotOptions {
    /// A shot message with ball data.
    pub fn ball_shot() -> (r: Self)
        ensures
            r == (ShotOptions {
                contains_ball_data: true,
                contains_club_data: false,
                launch_monitor_is_ready: None,
                launch_monitor_ball_detected: None,
            }),
    {
        ShotOptions {
            contains_ball_data: true,
            contains_club_data: false,
            launch_monitor_is_ready: None,
            launch_monitor_ball_detected: None,
        }
    }

    /// A shot message with club data only.
    pub fn club_shot() -> (r: Self)
        ensures
            r == (ShotOptions {
                contains_ball_data: false,
                contains_club_data: true,
                launch_monitor_is_ready: None,
                launch_monitor_ball_detected: None,
            }),
    {
        ShotOptions {
            contains_ball_data: false,
            contains_club_data: true,
            launch_monitor_is_ready: None,
            launch_monitor_ball_detected: None,
        }
    }

    /// A readiness message: no data, and the launch monitor reported ready
    /// (with a ball detected) or not.
    pub fn readiness(ready: bool) -> (r: Self)
        ensures
            r == (ShotOptions {
                contains_ball_data: false,
                contains_club_data: false,
                launch_monitor_is_ready: Some(ready),
                launch_monitor_ball_detected: Some(ready),
            }),
    {
        ShotOptions {
            contains_ball_data: false,
            contains_club_data: false,
            launch_monitor_is_ready: Some(ready),
            launch_monitor_ball_detected: Some(ready),
        }
    }
}

/// The number of the next ball shot on a connection whose last shot was
/// `current` (numbers start at 1; club and readiness messages reuse the
/// current number).
pub fn next_shot_number(current: u64) -> (r: u64)
    requires
        current < u64::MAX,
    ensures
        r == current + 1,
{
    current + 1
}

pub open spec fn labelled(prefix: Seq<char>, e: Option<String>) -> Seq<Seq<char>> {
    match e {
        Some(m) => seq![prefix + m@],
        None => Seq::empty(),
    }
}

pub open spec fn joined(parts: Seq<Seq<char>>) -> Seq<char> {
    if parts.len() == 2 {
        parts[0] + "; "@ + parts[1]
    } else {
        parts[0]
    }
}

/// The outcome of sending to the connected simulators, given each one's
/// send error: success when neither failed; otherwise each failure under
/// its simulator's name, GSPro first, separated by `; `.
pub fn send_report(gspro: Option<String>, infinite_tees: Option<String>) -> (r: Result<(), String>)
    ensures
        ({
            let parts = labelled("GSPro: "@, gspro) + labelled("Infinite Tees: "@, infinite_tees);
            &&& parts.len() == 0 ==> r is Ok
            &&& parts.len() > 0 ==> (r matches Err(m) && m@ == joined(parts))
        }),
{
    match (gspro, infinite_tees) {
        (None, None) => Ok(()),
        (Some(g), None) => {
            let mut msg = chars_of("GSPro: ");
            push_str(&mut msg, g.as_str());
            Err(string_from_chars(&msg))
        },
        (None, Some(t)) => {
            let mut msg = chars_of("Infinite Tees: ");
            push_str(&mut msg, t.as_str());
            Err(string_from_chars(&msg))
        },
        (Some(g), Some(t)) => {
            let mut msg = chars_of("GSPro: ");
            push_str(&mut msg, g.as_str());
            push_str(&mut msg, "; ");
            push_str(&mut msg, "Infinite Tees: ");
            push_str(&mut msg, t.as_str());
            assert(msg@ =~= ("GSPro: "@ + g@) + "; "@ + ("Infinite Tees: "@ + t@));
            Err(string_from_chars(&msg))
        },
    }
}

} // verus!
