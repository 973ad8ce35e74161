//! Timing of compressed units on their way to the sink.

use vstd::prelude::*;
use crate::rational::{Rational, Rounding, rescaled, rescale, rescale_rnd};

verus! {

/// Position marker meaning "unknown".
pub const UNKNOWN_POSITION: i64 = -1;

/// The timing fields of a compressed unit; the payload stays with whoever
/// holds the unit.
#[derive(Clone, Copy, Debug, PartialEq, Eq, Structural)]
pub struct Packet {
    pub stream_index: i32,
    pub pts: i64,
    pub dts: i64,
    pub duration: i64,
    pub pos: i64,
}

/// A timestamp moved from `from` to `to`: nearest rounding, unknown and
/// extreme values kept as they are.
pub open spec fn moved_ts(ts: i64, from: Rational, to: Rational) -> i64 {
    rescaled(ts, from, to, Rounding::NearInf, true)
}

/// A passed-through unit as it is written to output stream `out_index`.
pub open spec fn passthrough_spec(p: Packet, from: Rational, to: Rational, out_index: i32) -> Packet {
    Packet {
        stream_index: out_index,
        pts: moved_ts(p.pts, from, to),
        dts: moved_ts(p.dts, from, to),
        duration: rescaled(p.duration, from, to, Rounding::NearInf, false),
        pos: UNKNOWN_POSITION,
    }
}

/// Restamps a passed-through unit for output stream `out_index`: pts and dts
/// are rescaled from the input to the output time base (nearest, extremes
/// kept), the duration is rescaled, and the position becomes unknown.
pub fn passthrough_timing(p: Packet, from: Rational, to: Rational, out_index: i32) -> (r: Packet)
    ensures
        r == passthrough_spec(p, from, to, out_index),
{
    Packet {
        stream_index: out_index,
        pts: rescale_rnd(p.pts, from, to, Rounding::NearInf, true),
        dts: rescale_rnd(p.dts, from, to, Rounding::NearInf, true),
        duration: rescale(p.duration, from, to),
        pos: UNKNOWN_POSITION,
    }
}

/// A frame duration can be derived from an output time base and a frame
/// rate when both are positive (a zero frame-rate denominator is allowed).
pub open spec fn duration_defined(tb: Rational, rate: Rational) -> bool {
    tb.num > 0 && tb.den >= 0 && rate.num > 0 && rate.den >= 0
}

/// `tb.den / (tb.num * rate.num) * rate.den`, in integers with the division
/// truncated.
pub open spec fn frame_duration(tb: Rational, rate: Rational) -> int {
    (tb.den as int / (tb.num as int * rate.num as int)) * rate.den as int
}

/// The duration of one encoded unit in output time base `tb`, at frame rate
/// `rate`; `None` where `duration_defined` fails.
pub fn encoded_duration(tb: Rational, rate: Rational) -> (r: Option<i64>)
    ensures
        duration_defined(tb, rate) <==> r.is_some(),
        duration_defined(tb, rate) ==> r == Some(frame_duration(tb, rate) as i64),
        duration_defined(tb, rate) ==> 0 <= frame_duration(tb, rate) <= i64::MAX,
{
    if !(tb.num > 0 && tb.den >= 0 && rate.num > 0 && rate.den >= 0) {
        return None;
    }
    assert(0 < tb.num * rate.num <= 0x4000_0000_0000_0000) by (nonlinear_arith)
        requires 0 < tb.num < 0x8000_0000, 0 < rate.num < 0x8000_0000;
    let div: i64 = tb.num as i64 * rate.num as i64;
    let q: i64 = tb.den as i64 / div;
    assert(0 <= q <= tb.den) by (nonlinear_arith)
        requires q == tb.den as int / div as int, div >= 1, tb.den >= 0;
    assert(0 <= q * rate.den <= 0x4000_0000_0000_0000) by (nonlinear_arith)
        requires 0 <= q < 0x8000_0000, 0 <= rate.den < 0x8000_0000;
    Some(q * rate.den as i64)
}

/// An encoded unit as it is written to output stream `out_index`.
pub open spec fn encoded_spec(p: Packet, from: Rational, to: Rational, rate: Rational, out_index: i32) -> Packet {
    Packet {
        stream_index: out_index,
        pts: moved_ts(p.pts, from, to),
        dts: moved_ts(p.dts, from, to),
        duration: frame_duration(to, rate) as i64,
        pos: p.pos,
    }
}

/// Restamps an encoded unit for output stream `out_index`: its duration is
/// derived from the output time base and the source frame rate, and pts and
/// dts are rescaled from the decode-side time base to the output time base.
pub fn encoded_timing(p: Packet, from: Rational, to: Rational, rate: Rational, out_index: i32) -> (r: Packet)
    requires
        duration_defined(to, rate),
    ensures
        r == encoded_spec(p, from, to, rate, out_index),
{
    let duration = match encoded_duration(to, rate) {
        Some(d) => d,
        None => 0,
    };
    Packet {
        stream_index: out_index,
        pts: rescale_rnd(p.pts, from, to, Rounding::NearInf, true),
        dts: rescale_rnd(p.dts, from, to, Rounding::NearInf, true),
        duration,
        pos: p.pos,
    }
}

} // verus!
