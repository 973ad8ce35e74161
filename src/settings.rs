//! The fixed encoder configuration of a transcode run.

use vstd::prelude::*;

verus! {

/// Rate control and group-of-pictures length of the re-encoding session.
#[derive(Clone, Copy, Debug, PartialEq, Eq, Structural)]
pub struct EncoderSettings {
    /// Target bit rate, in bits per second.
    pub bit_rate: i64,
    /// Rate-control buffer size, in bits.
    pub rc_buffer_size: i32,
    /// Largest bit rate, in bits per second.
    pub rc_max_rate: i64,
    /// Smallest bit rate, in bits per second.
    pub rc_min_rate: i64,
    /// Frames between key frames (also the smallest such distance).
    pub gop: i32,
}

pub open spec fn spec_encoder_settings() -> EncoderSettings {
    EncoderSettings {
        bit_rate: 2_000_000,
        rc_buffer_size: 4_000_000,
        rc_max_rate: 2_000_000,
        rc_min_rate: 2_500_000,
        gop: 60,
    }
}

/// The settings that every transcode run encodes with.
pub fn encoder_settings() -> (r: EncoderSettings)
    ensures
        r == spec_encoder_settings(),
{
    EncoderSettings {
        bit_rate: 2 * 1000 * 1000,
        rc_buffer_size: 4 * 1000 * 1000,
        rc_max_rate: 2 * 1000 * 1000,
        rc_min_rate: 5 * 1000 * 1000 / 2,
        gop: 60,
    }
}

} // verus!
