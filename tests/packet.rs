use avpipe::packet::{encoded_duration, encoded_timing, passthrough_timing, Packet, UNKNOWN_POSITION};
use avpipe::rational::{Rational, NO_TIMESTAMP};

fn q(num: i32, den: i32) -> Rational {
    Rational { num, den }
}

#[test]
fn passthrough_restamps_unit() {
    let p = Packet { stream_index: 3, pts: 3003, dts: NO_TIMESTAMP, duration: 1001, pos: 4096 };
    let r = passthrough_timing(p, q(1, 30000), q(1, 90000), 1);
    assert_eq!(r, Packet { stream_index: 1, pts: 9009, dts: NO_TIMESTAMP, duration: 3003, pos: UNKNOWN_POSITION });
}

#[test]
fn encoded_duration_formula() {
    assert_eq!(encoded_duration(q(1, 60), q(60, 1)), Some(1));
    assert_eq!(encoded_duration(q(1, 90000), q(30000, 1001)), Some(3003));
    assert_eq!(encoded_duration(q(1, 25), q(30, 1)), Some(0));
    assert_eq!(encoded_duration(q(1, 60), q(0, 1)), None);
    assert_eq!(encoded_duration(q(0, 60), q(60, 1)), None);
}

#[test]
fn encoded_timing_stamps_unit() {
    let p = Packet { stream_index: 0, pts: 5, dts: 4, duration: 0, pos: 77 };
    let r = encoded_timing(p, q(1, 30), q(1, 60), q(60, 1), 2);
    assert_eq!(r, Packet { stream_index: 2, pts: 10, dts: 8, duration: 1, pos: 77 });
}

#[test]
fn transcode_encoder_settings() {
    let s = avpipe::settings::encoder_settings();
    assert_eq!(s.bit_rate, 2_000_000);
    assert_eq!(s.rc_buffer_size, 4_000_000);
    assert_eq!(s.rc_max_rate, 2_000_000);
    assert_eq!(s.rc_min_rate, 2_500_000);
    assert_eq!(s.gop, 60);
}
