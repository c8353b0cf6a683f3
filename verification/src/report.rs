//! Reports: the fixed byte layouts by which the light takes its commands.
//!
//! | report   | 0 | 1 | 2       | 3 | 4 | 5 | 6     | 7          | 8          |
//! |----------|---|---|---------|---|---|---|-------|------------|------------|
//! | static   | 0 | 1 | led     | r | g | b |       |            |            |
//! | strobe   | 0 | 3 | led     | r | g | b | speed | 0          | iterations |
//! | circling | 0 | 4 | pattern | r | g | b | 0     | iterations | rate       |

use crate::color::{color_to_bytes, CircularLength, Color};
use vstd::prelude::*;

verus! {

/// Report identifier that leads every report.
pub const HID_REPORT_ID: u8 = 0;

/// Target selector that addresses every LED of the light at once.
pub const LED_ALL: u8 = 255;

/// Mode byte of a report that sets a steady color.
pub const MODE_STATIC: u8 = 1;

/// Mode byte of a report that starts a strobe.
pub const MODE_STROBE: u8 = 3;

/// Mode byte of a report that starts a circular sweep.
pub const MODE_CIRCLING: u8 = 4;

/// The bytes of the report that sets `led` to a steady `color`.
pub open spec fn static_report(led: u8, color: Color) -> Seq<u8> {
    seq![HID_REPORT_ID, MODE_STATIC, led, color.rgb().0, color.rgb().1, color.rgb().2]
}

/// The bytes of the report that makes `led` flash in `color`, `iterations`
/// times at `speed`. The device takes zero iterations to mean without end.
pub open spec fn strobe_report(led: u8, color: Color, speed: u8, iterations: u8) -> Seq<u8> {
    seq![
        HID_REPORT_ID,
        MODE_STROBE,
        led,
        color.rgb().0,
        color.rgb().1,
        color.rgb().2,
        speed,
        0u8,
        iterations,
    ]
}

/// The bytes of the report that sweeps a lit section of the given `pattern`
/// round the light in `color`, `iterations` times at `rate`. The device takes
/// zero iterations to mean without end.
pub open spec fn circling_report(
    pattern: CircularLength,
    color: Color,
    rate: u8,
    iterations: u8,
) -> Seq<u8> {
    seq![
        HID_REPORT_ID,
        MODE_CIRCLING,
        pattern.code_of(),
        color.rgb().0,
        color.rgb().1,
        color.rgb().2,
        0u8,
        iterations,
        rate,
    ]
}

/// Builds the report that sets `led` to a steady `color`.
pub fn encode_static(led: u8, color: Color) -> (report: [u8; 6])
    ensures
        report@ == static_report(led, color),
{
    let (r, g, b): (u8, u8, u8) = color_to_bytes(color);
    [HID_REPORT_ID, MODE_STATIC, led, r, g, b]
}

/// Builds the report that makes `led` flash in `color`.
pub fn encode_strobe(led: u8, color: Color, speed: u8, iterations: u8) -> (report: [u8; 9])
    ensures
        report@ == strobe_report(led, color, speed, iterations),
{
    let (r, g, b): (u8, u8, u8) = color_to_bytes(color);
    [HID_REPORT_ID, MODE_STROBE, led, r, g, b, speed, 0x00, iterations]
}

/// Builds the report that sweeps `color` round the light.
pub fn encode_circling(
    pattern: CircularLength,
    color: Color,
    rate: u8,
    iterations: u8,
) -> (report: [u8; 9])
    ensures
        report@ == circling_report(pattern, color, rate, iterations),
{
    let code: u8 = pattern.code();
    let (r, g, b): (u8, u8, u8) = color_to_bytes(color);
    [HID_REPORT_ID, MODE_CIRCLING, code, r, g, b, 0x00, iterations, rate]
}

/// What a report asks of the light, field by field.
#[derive(Clone, Copy, Debug, PartialEq, Eq, Structural)]
pub enum Request {
    /// Show a steady color.
    Static { led: u8, red: u8, green: u8, blue: u8 },
    /// Flash a color.
    Strobe { led: u8, red: u8, green: u8, blue: u8, speed: u8, iterations: u8 },
    /// Sweep a color round the light.
    Circling { pattern: CircularLength, red: u8, green: u8, blue: u8, rate: u8, iterations: u8 },
}

/// The request that `bytes` spell, read off at the fixed offsets of the
/// layout that their length and mode byte select; `None` where they follow
/// none of the three layouts.
pub open spec fn decoded(bytes: Seq<u8>) -> Option<Request> {
    if bytes.len() == 6 && bytes[0] == HID_REPORT_ID && bytes[1] == MODE_STATIC {
        Some(Request::Static { led: bytes[2], red: bytes[3], green: bytes[4], blue: bytes[5] })
    } else if bytes.len() == 9 && bytes[0] == HID_REPORT_ID && bytes[1] == MODE_STROBE
        && bytes[7] == 0 {
        Some(
            Request::Strobe {
                led: bytes[2],
                red: bytes[3],
                green: bytes[4],
                blue: bytes[5],
                speed: bytes[6],
                iterations: bytes[8],
            },
        )
    } else if bytes.len() == 9 && bytes[0] == HID_REPORT_ID && bytes[1] == MODE_CIRCLING
        && bytes[6] == 0 {
        match CircularLength::from_code(bytes[2]) {
            Some(pattern) => Some(
                Request::Circling {
                    pattern,
                    red: bytes[3],
                    green: bytes[4],
                    blue: bytes[5],
                    rate: bytes[8],
                    iterations: bytes[7],
                },
            ),
            None => None,
        }
    } else {
        None
    }
}

/// Reads a report back into the request it makes.
pub fn decode_report(bytes: &[u8]) -> (request: Option<Request>)
    ensures
        request == decoded(bytes@),
{
    if bytes.len() == 6 {
        if bytes[0] == HID_REPORT_ID && bytes[1] == MODE_STATIC {
            Some(Request::Static { led: bytes[2], red: bytes[3], green: bytes[4], blue: bytes[5] })
        } else {
            None
        }
    } else if bytes.len() == 9 && bytes[0] == HID_REPORT_ID {
        if bytes[1] == MODE_STROBE && bytes[7] == 0 {
            Some(
                Request::Strobe {
                    led: bytes[2],
                    red: bytes[3],
                    green: bytes[4],
                    blue: bytes[5],
                    speed: bytes[6],
                    iterations: bytes[8],
                },
            )
        } else if bytes[1] == MODE_CIRCLING && bytes[6] == 0 {
            match CircularLength::with_code(bytes[2]) {
                Some(pattern) => Some(
                    Request::Circling {
                        pattern,
                        red: bytes[3],
                        green: bytes[4],
                        blue: bytes[5],
                        rate: bytes[8],
                        iterations: bytes[7],
                    },
                ),
                None => None,
            }
        } else {
            None
        }
    } else {
        None
    }
}

/// A static report reads back as the selector and the channels it was built
/// from.
pub proof fn lemma_static_round_trip(led: u8, color: Color)
    ensures
        decoded(static_report(led, color)) == Some(
            Request::Static {
                led,
                red: color.rgb().0,
                green: color.rgb().1,
                blue: color.rgb().2,
            },
        ),
{
}

/// A strobe report reads back as the selector, the channels, the speed and the
/// iteration count it was built from.
pub proof fn lemma_strobe_round_trip(led: u8, color: Color, speed: u8, iterations: u8)
    ensures
        decoded(strobe_report(led, color, speed, iterations)) == Some(
            Request::Strobe {
                led,
                red: color.rgb().0,
                green: color.rgb().1,
                blue: color.rgb().2,
                speed,
                iterations,
            },
        ),
{
}

/// A circling report reads back as the pattern, the channels, the rate and the
/// iteration count it was built from.
pub proof fn lemma_circling_round_trip(
    pattern: CircularLength,
    color: Color,
    rate: u8,
    iterations: u8,
)
    ensures
        decoded(circling_report(pattern, color, rate, iterations)) == Some(
            Request::Circling {
                pattern,
                red: color.rgb().0,
                green: color.rgb().1,
                blue: color.rgb().2,
                rate,
                iterations,
            },
        ),
{
}

/// Two byte sequences that spell the same request are the same sequence: a
/// request has one report.
pub proof fn lemma_reports_are_told_apart(first: Seq<u8>, second: Seq<u8>)
    requires
        decoded(first) is Some,
        decoded(first) == decoded(second),
    ensures
        first == second,
{
}

} // verus!
