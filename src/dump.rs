//! The frame-dump run: decode the units of one video stream and save a
//! record of each decoded frame, up to a wanted number of frames.
//!
//! As with a pipeline run, the driver performs each `DumpAction` and
//! reports its outcome as an `Event`.

use vstd::prelude::*;
use crate::pipeline::{Event, Failure};

verus! {

/// What the driver of a frame dump does next.
#[derive(Clone, Copy, Debug, PartialEq, Eq, Structural)]
pub enum DumpAction {
    /// Read the next unit from the source.
    ReadNext,
    /// Release the held input unit.
    Release,
    /// Submit the held input unit to the decoder.
    SubmitPacket,
    /// Retrieve the decoder's next frame.
    DrainDecoder,
    /// Save the frame just decoded as record number `n`.
    Save(u64),
    /// The dump is over.
    Finished,
}

/// Which outcome a frame dump waits for.
#[derive(Clone, Copy, Debug, PartialEq, Eq, Structural)]
pub enum DumpPhase {
    AwaitRead,
    AwaitSubmit,
    AwaitFrame,
    AwaitSave,
    AwaitRelease,
    Finished,
}

/// Where a frame dump stands.
#[derive(Clone, Copy, Debug, PartialEq, Eq, Structural)]
pub struct DumpControl {
    pub phase: DumpPhase,
    /// Records saved so far.
    pub saved: u64,
    /// The driver holds an input unit that is not yet released.
    pub holding: bool,
    /// The held unit is to be submitted again once the decoder is drained.
    pub packet_again: bool,
    /// The first failure met, if any.
    pub failure: Option<Failure>,
}

/// The states that a dump wanting `wanted` records can be in.
pub open spec fn dump_ok(wanted: u64, c: DumpControl) -> bool {
    &&& c.saved <= wanted
    &&& (c.phase == DumpPhase::AwaitRead || c.phase == DumpPhase::AwaitSubmit
        || c.phase == DumpPhase::AwaitFrame || c.phase == DumpPhase::AwaitSave) ==> c.saved < wanted
    &&& c.holding <==> (c.phase == DumpPhase::AwaitSubmit || c.phase == DumpPhase::AwaitFrame
        || c.phase == DumpPhase::AwaitSave || c.phase == DumpPhase::AwaitRelease)
    &&& c.failure.is_some() ==> (c.phase == DumpPhase::AwaitRelease || c.phase == DumpPhase::Finished)
}

/// Stop on failure `f`: release the held unit, then finish.
pub open spec fn dump_stop(c: DumpControl, f: Failure) -> (DumpControl, DumpAction) {
    (DumpControl { phase: DumpPhase::AwaitRelease, failure: Some(f), ..c }, DumpAction::Release)
}

/// The decision for outcome `ev` in state `c` of a dump of stream `video`.
pub open spec fn dump_transition(video: i32, wanted: u64, c: DumpControl, ev: Event) -> (DumpControl, DumpAction) {
    match c.phase {
        DumpPhase::AwaitRead => match ev {
            Event::Read(p) => if p.stream_index == video {
                (DumpControl { phase: DumpPhase::AwaitSubmit, holding: true, ..c }, DumpAction::SubmitPacket)
            } else {
                (DumpControl { phase: DumpPhase::AwaitRelease, holding: true, ..c }, DumpAction::Release)
            },
            Event::ReadFailed => (c, DumpAction::ReadNext),
            Event::EndOfInput => (DumpControl { phase: DumpPhase::Finished, ..c }, DumpAction::Finished),
            _ => (DumpControl { phase: DumpPhase::Finished, failure: Some(Failure::UnexpectedEvent), ..c }, DumpAction::Finished),
        },
        DumpPhase::AwaitSubmit => match ev {
            Event::Done => (DumpControl { phase: DumpPhase::AwaitFrame, ..c }, DumpAction::DrainDecoder),
            Event::Again => (DumpControl { phase: DumpPhase::AwaitFrame, packet_again: true, ..c }, DumpAction::DrainDecoder),
            Event::Failed(e) => dump_stop(c, Failure::Codec(e)),
            _ => dump_stop(c, Failure::UnexpectedEvent),
        },
        DumpPhase::AwaitFrame => match ev {
            Event::Frame => (DumpControl { phase: DumpPhase::AwaitSave, ..c }, DumpAction::Save((c.saved + 1) as u64)),
            Event::WouldBlock | Event::EndOfStream => if c.packet_again {
                (DumpControl { phase: DumpPhase::AwaitSubmit, packet_again: false, ..c }, DumpAction::SubmitPacket)
            } else {
                (DumpControl { phase: DumpPhase::AwaitRelease, ..c }, DumpAction::Release)
            },
            Event::Failed(e) => dump_stop(c, Failure::Codec(e)),
            _ => dump_stop(c, Failure::UnexpectedEvent),
        },
        DumpPhase::AwaitSave => {
            let saved = (c.saved + 1) as u64;
            if saved >= wanted {
                (DumpControl { phase: DumpPhase::AwaitRelease, saved, packet_again: false, ..c }, DumpAction::Release)
            } else {
                (DumpControl { phase: DumpPhase::AwaitFrame, saved, ..c }, DumpAction::DrainDecoder)
            }
        },
        DumpPhase::AwaitRelease => {
            if c.failure.is_some() || c.saved >= wanted {
                (DumpControl { phase: DumpPhase::Finished, holding: false, ..c }, DumpAction::Finished)
            } else {
                (DumpControl { phase: DumpPhase::AwaitRead, holding: false, ..c }, DumpAction::ReadNext)
            }
        },
        DumpPhase::Finished => (c, DumpAction::Finished),
    }
}

/// A frame dump in progress.
pub struct FrameDump {
    video: i32,
    wanted: u64,
    control: DumpControl,
}

impl FrameDump {
    pub closed spec fn spec_video(&self) -> i32 {
        self.video
    }

    pub closed spec fn spec_wanted(&self) -> u64 {
        self.wanted
    }

    pub closed spec fn spec_control(&self) -> DumpControl {
        self.control
    }

    pub open spec fn wf(&self) -> bool {
        dump_ok(self.spec_wanted(), self.spec_control())
    }

    /// Starts a dump of `wanted` frames of stream `video`, with its first
    /// action: a read, or `Finished` at once when no frame is wanted.
    pub fn new(video: i32, wanted: u64) -> (r: (FrameDump, DumpAction))
        ensures
            r.0.wf(),
            r.0.spec_video() == video,
            r.0.spec_wanted() == wanted,
            r.0.spec_control().saved == 0,
            r.0.spec_control().failure.is_none(),
            !r.0.spec_control().holding,
            wanted > 0 ==> r.0.spec_control().phase == DumpPhase::AwaitRead && r.1 == DumpAction::ReadNext,
            wanted == 0 ==> r.0.spec_control().phase == DumpPhase::Finished && r.1 == DumpAction::Finished,
    {
        let phase = if wanted > 0 { DumpPhase::AwaitRead } else { DumpPhase::Finished };
        let control = DumpControl { phase, saved: 0, holding: false, packet_again: false, failure: None };
        let first = if wanted > 0 { DumpAction::ReadNext } else { DumpAction::Finished };
        (FrameDump { video, wanted, control }, first)
    }

    /// Takes the outcome of the last action and returns the next action.
    pub fn step(&mut self, ev: Event) -> (a: DumpAction)
        requires
            old(self).wf(),
        ensures
            final(self).wf(),
            final(self).spec_video() == old(self).spec_video(),
            final(self).spec_wanted() == old(self).spec_wanted(),
            (final(self).spec_control(), a) == dump_transition(
                old(self).spec_video(), old(self).spec_wanted(), old(self).spec_control(), ev),
    {
        let c = self.control;
        let (c2, a) = match c.phase {
            DumpPhase::AwaitRead => match ev {
                Event::Read(p) => if p.stream_index == self.video {
                    (DumpControl { phase: DumpPhase::AwaitSubmit, holding: true, ..c }, DumpAction::SubmitPacket)
                } else {
                    (DumpControl { phase: DumpPhase::AwaitRelease, holding: true, ..c }, DumpAction::Release)
                },
                Event::ReadFailed => (c, DumpAction::ReadNext),
                Event::EndOfInput => (DumpControl { phase: DumpPhase::Finished, ..c }, DumpAction::Finished),
                _ => (DumpControl { phase: DumpPhase::Finished, failure: Some(Failure::UnexpectedEvent), ..c }, DumpAction::Finished),
            },
            DumpPhase::AwaitSubmit => match ev {
                Event::Done => (DumpControl { phase: DumpPhase::AwaitFrame, ..c }, DumpAction::DrainDecoder),
                Event::Again => (DumpControl { phase: DumpPhase::AwaitFrame, packet_again: true, ..c }, DumpAction::DrainDecoder),
                Event::Failed(e) => (DumpControl { phase: DumpPhase::AwaitRelease, failure: Some(Failure::Codec(e)), ..c }, DumpAction::Release),
                _ => (DumpControl { phase: DumpPhase::AwaitRelease, failure: Some(Failure::UnexpectedEvent), ..c }, DumpAction::Release),
            },
            DumpPhase::AwaitFrame => match ev {
                Event::Frame => (DumpControl { phase: DumpPhase::AwaitSave, ..c }, DumpAction::Save(c.saved + 1)),
                Event::WouldBlock | Event::EndOfStream => if c.packet_again {
                    (DumpControl { phase: DumpPhase::AwaitSubmit, packet_again: false, ..c }, DumpAction::SubmitPacket)
                } else {
                    (DumpControl { phase: DumpPhase::AwaitRelease, ..c }, DumpAction::Release)
                },
                Event::Failed(e) => (DumpControl { phase: DumpPhase::AwaitRelease, failure: Some(Failure::Codec(e)), ..c }, DumpAction::Release),
                _ => (DumpControl { phase: DumpPhase::AwaitRelease, failure: Some(Failure::UnexpectedEvent), ..c }, DumpAction::Release),
            },
            DumpPhase::AwaitSave => {
                let saved = c.saved + 1;
                if saved >= self.wanted {
                    (DumpControl { phase: DumpPhase::AwaitRelease, saved, packet_again: false, ..c }, DumpAction::Release)
                } else {
                    (DumpControl { phase: DumpPhase::AwaitFrame, saved, ..c }, DumpAction::DrainDecoder)
                }
            },
            DumpPhase::AwaitRelease => {
                if c.failure.is_some() || c.saved >= self.wanted {
                    (DumpControl { phase: DumpPhase::Finished, holding: false, ..c }, DumpAction::Finished)
                } else {
                    (DumpControl { phase: DumpPhase::AwaitRead, holding: false, ..c }, DumpAction::ReadNext)
                }
            },
            DumpPhase::Finished => (c, DumpAction::Finished),
        };
        self.control = c2;
        a
    }

    /// Where the dump stands.
    pub fn control(&self) -> (r: DumpControl)
        ensures
            r == self.spec_control(),
    {
        self.control
    }
}

/// Records are numbered 1, 2, 3, ... in the order they are saved, and no
/// more than `wanted` are ever saved.
pub proof fn lemma_records_numbered_in_order(video: i32, wanted: u64, c: DumpControl, ev: Event)
    requires
        dump_ok(wanted, c),
    ensures
        ({
            let (c2, a) = dump_transition(video, wanted, c, ev);
            &&& dump_ok(wanted, c2)
            &&& c.saved <= c2.saved <= c.saved + 1
            &&& a is Save ==> (a->Save_0 == c.saved + 1 && a->Save_0 <= wanted)
        }),
{
}

} // verus!
