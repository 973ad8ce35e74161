use avpipe::mapping::{build_mapping, select_video_stream, MediaKind};
use avpipe::packet::Packet;
use avpipe::pipeline::{Action, Event, Failure, Phase, Pipeline, Plan, PlanError};
use avpipe::rational::{rescale_rnd, Rational, Rounding};

fn q(num: i32, den: i32) -> Rational {
    Rational { num, den }
}

fn unit(stream_index: i32, pts: i64) -> Packet {
    Packet { stream_index, pts, dts: pts, duration: 1, pos: 100 }
}

fn remux_plan() -> Plan {
    Plan {
        mapping: build_mapping(2, None),
        in_time_bases: vec![q(1, 90000), q(1, 44100)],
        out_time_bases: vec![q(1, 1000), q(1, 44100)],
        reencode: None,
        frame_rate: q(0, 1),
    }
}

fn transcode_plan() -> Plan {
    let kinds = vec![MediaKind::Video];
    let video = select_video_stream(&kinds);
    let out_tb = q(60, 1).inverse().unwrap();
    Plan {
        mapping: build_mapping(1, video),
        in_time_bases: vec![q(1, 30)],
        out_time_bases: vec![out_tb],
        reencode: video,
        frame_rate: q(60, 1),
    }
}

#[derive(Default)]
struct Tally {
    written: Vec<Packet>,
    encoded: Vec<Packet>,
    releases: usize,
    closes: usize,
    frames_submitted: usize,
    flushes: usize,
}

/// Drives a pass-through run over `units`, answering every other request
/// with `Done`.
fn drive_passthrough(p: &mut Pipeline, units: &[Packet]) -> Tally {
    let mut t = Tally::default();
    let mut next = 0;
    let mut read = |next: &mut usize| {
        if *next < units.len() {
            *next += 1;
            Event::Read(units[*next - 1])
        } else {
            Event::EndOfInput
        }
    };
    let mut ev = read(&mut next);
    loop {
        match p.step(ev) {
            Action::ReadNext => ev = read(&mut next),
            Action::WriteInput(w) => {
                t.written.push(w);
                ev = Event::Done;
            }
            Action::Release => {
                t.releases += 1;
                ev = Event::Done;
            }
            Action::Close => {
                t.closes += 1;
                ev = Event::Done;
            }
            Action::Finished => break,
            other => panic!("unexpected action {:?}", other),
        }
    }
    t
}

#[test]
fn remux_two_streams_drops_extra_index() {
    let mut p = Pipeline::new(remux_plan()).unwrap();
    let units: Vec<Packet> = (0..500).map(|k| unit((k % 3) as i32, k as i64 * 90)).collect();
    let kept = units.iter().filter(|u| u.stream_index < 2).count();
    let t = drive_passthrough(&mut p, &units);
    assert_eq!(t.written.len(), kept);
    assert_eq!(t.releases, 500 - kept);
    assert_eq!(t.closes, 1);
    assert_eq!(p.failure(), None);
    assert_eq!(p.control().phase, Phase::Finished);
    assert!(t.written.iter().all(|w| w.stream_index < 2 && w.pos == -1));
}

#[test]
fn passthrough_pts_rescaled_per_stream() {
    let plan = remux_plan();
    let in_tbs = plan.in_time_bases.clone();
    let out_tbs = plan.out_time_bases.clone();
    let mut p = Pipeline::new(plan).unwrap();
    let units = vec![unit(0, 180000), unit(1, 44100), unit(0, 45), unit(1, i64::MIN)];
    let t = drive_passthrough(&mut p, &units);
    assert_eq!(t.written.len(), 4);
    for (u, w) in units.iter().zip(t.written.iter()) {
        let i = u.stream_index as usize;
        assert_eq!(w.stream_index, u.stream_index);
        assert_eq!(w.pts, rescale_rnd(u.pts, in_tbs[i], out_tbs[i], Rounding::NearInf, true));
    }
    assert_eq!(t.written[0].pts, 2000);
    assert_eq!(t.written[1].pts, 44100);
    assert_eq!(t.written[2].pts, 1);
    assert_eq!(t.written[3].pts, i64::MIN);
}

#[test]
fn empty_input_closes_once() {
    let mut p = Pipeline::new(remux_plan()).unwrap();
    let t = drive_passthrough(&mut p, &[]);
    assert_eq!(t.closes, 1);
    assert!(t.written.is_empty());
}

/// Drives a transcode run: each input unit decodes to `frames_per_unit`
/// frames, each frame encodes to one unit, and the flush yields `tail` more.
fn drive_transcode(p: &mut Pipeline, units: &[Packet], frames_per_unit: usize, tail: usize) -> Tally {
    let mut t = Tally::default();
    let mut next = 0;
    let mut buffered_frames = 0;
    let mut pending_units: Vec<Packet> = Vec::new();
    let mut encoder_in = 0i64;
    let mut tail_left = tail;
    let mut flushing = false;
    let mut ev = Event::Read(units[0]);
    next += 1;
    loop {
        match p.step(ev) {
            Action::ReadNext => {
                if next < units.len() {
                    ev = Event::Read(units[next]);
                    next += 1;
                } else {
                    ev = Event::EndOfInput;
                }
            }
            Action::SubmitPacket => {
                buffered_frames = frames_per_unit;
                ev = Event::Done;
            }
            Action::DrainDecoder => {
                if buffered_frames > 0 {
                    buffered_frames -= 1;
                    ev = Event::Frame;
                } else {
                    ev = Event::WouldBlock;
                }
            }
            Action::SubmitFrame => {
                t.frames_submitted += 1;
                pending_units.push(Packet { stream_index: 0, pts: encoder_in, dts: encoder_in, duration: 0, pos: -1 });
                encoder_in += 1;
                ev = Event::Done;
            }
            Action::DrainEncoder => {
                if let Some(u) = pending_units.pop() {
                    ev = Event::Encoded(u);
                } else if flushing && tail_left > 0 {
                    tail_left -= 1;
                    ev = Event::Encoded(Packet { stream_index: 0, pts: encoder_in, dts: encoder_in, duration: 0, pos: -1 });
                    encoder_in += 1;
                } else if flushing {
                    ev = Event::EndOfStream;
                } else {
                    ev = Event::WouldBlock;
                }
            }
            Action::WriteEncoded(w) => {
                t.encoded.push(w);
                ev = Event::Done;
            }
            Action::Release => {
                t.releases += 1;
                ev = Event::Done;
            }
            Action::FlushEncoder => {
                t.flushes += 1;
                flushing = true;
                ev = Event::Done;
            }
            Action::Close => {
                t.closes += 1;
                ev = Event::Done;
            }
            Action::Finished => break,
            other => panic!("unexpected action {:?}", other),
        }
    }
    t
}

#[test]
fn transcode_durations_follow_frame_rate() {
    let mut p = Pipeline::new(transcode_plan()).unwrap();
    let units: Vec<Packet> = (0..12).map(|k| unit(0, k)).collect();
    let t = drive_transcode(&mut p, &units, 1, 3);
    assert_eq!(t.encoded.len(), 15);
    assert!(t.encoded.len() >= 10);
    for w in &t.encoded {
        assert_eq!(w.duration, 60 / (1 * 60) * 1);
        assert_eq!(w.duration, 1);
        assert_eq!(w.stream_index, 0);
    }
    for (k, w) in t.encoded.iter().enumerate() {
        assert_eq!(w.pts, 2 * k as i64);
    }
    assert_eq!(t.releases, 12);
    assert_eq!(t.flushes, 1);
    assert_eq!(t.closes, 1);
}

#[test]
fn drain_three_frames_then_would_block() {
    let mut p = Pipeline::new(transcode_plan()).unwrap();
    assert_eq!(p.step(Event::Read(unit(0, 0))), Action::SubmitPacket);
    assert_eq!(p.step(Event::Done), Action::DrainDecoder);
    let mut frames = 0;
    let mut ev = Event::Frame;
    let mut drained = 0;
    loop {
        match p.step(ev) {
            Action::SubmitFrame => {
                frames += 1;
                ev = Event::Done;
            }
            Action::DrainEncoder => ev = Event::WouldBlock,
            Action::DrainDecoder => {
                drained += 1;
                ev = if drained < 3 { Event::Frame } else { Event::WouldBlock };
            }
            Action::Release => break,
            other => panic!("unexpected action {:?}", other),
        }
    }
    assert_eq!(frames, 3);
    assert_eq!(p.step(Event::Done), Action::ReadNext);
}

#[test]
fn decoder_again_resubmits_after_drain() {
    let mut p = Pipeline::new(transcode_plan()).unwrap();
    assert_eq!(p.step(Event::Read(unit(0, 0))), Action::SubmitPacket);
    assert_eq!(p.step(Event::Again), Action::DrainDecoder);
    assert_eq!(p.step(Event::WouldBlock), Action::SubmitPacket);
    assert_eq!(p.step(Event::Done), Action::DrainDecoder);
    assert_eq!(p.step(Event::WouldBlock), Action::Release);
}

#[test]
fn decode_failure_releases_flushes_and_closes() {
    let mut p = Pipeline::new(transcode_plan()).unwrap();
    assert_eq!(p.step(Event::Read(unit(0, 0))), Action::SubmitPacket);
    assert_eq!(p.step(Event::Done), Action::DrainDecoder);
    assert_eq!(p.step(Event::Failed(-22)), Action::Release);
    assert_eq!(p.step(Event::Done), Action::FlushEncoder);
    assert_eq!(p.step(Event::Done), Action::DrainEncoder);
    let w = match p.step(Event::Encoded(unit(0, 7))) {
        Action::WriteEncoded(w) => w,
        other => panic!("unexpected action {:?}", other),
    };
    assert_eq!(w.pts, 14);
    assert_eq!(p.step(Event::Done), Action::DrainEncoder);
    assert_eq!(p.step(Event::EndOfStream), Action::Close);
    assert_eq!(p.step(Event::Done), Action::Finished);
    assert_eq!(p.step(Event::Done), Action::Finished);
    assert_eq!(p.failure(), Some(Failure::Codec(-22)));
}

#[test]
fn unexpected_event_stops_run() {
    let mut p = Pipeline::new(remux_plan()).unwrap();
    assert_eq!(p.step(Event::Frame), Action::Close);
    assert_eq!(p.failure(), Some(Failure::UnexpectedEvent));
    assert_eq!(p.step(Event::Done), Action::Finished);
}

#[test]
fn read_failure_skips_unit() {
    let mut p = Pipeline::new(remux_plan()).unwrap();
    assert_eq!(p.step(Event::ReadFailed), Action::ReadNext);
    assert_eq!(p.failure(), None);
}

#[test]
fn plan_errors() {
    let mut bad = remux_plan();
    bad.in_time_bases.pop();
    assert_eq!(Pipeline::new(bad).err(), Some(PlanError::Inconsistent));
    let mut wrong_mode = remux_plan();
    wrong_mode.reencode = Some(0);
    assert_eq!(Pipeline::new(wrong_mode).err(), Some(PlanError::Inconsistent));
    let mut no_rate = transcode_plan();
    no_rate.frame_rate = q(0, 1);
    assert_eq!(Pipeline::new(no_rate).err(), Some(PlanError::NoFrameDuration));
}
