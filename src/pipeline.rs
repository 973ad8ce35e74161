//! The run state machine: one decision per step, from the outcome of the
//! last action to the next action.
//!
//! Whoever drives a run performs each `Action` (read, write, release, codec
//! submit and drain, flush, close) and reports its outcome as an `Event`.
//! A run starts by reading; its first event answers `Action::ReadNext`.

use vstd::prelude::*;
use crate::mapping::{MapEntry, StreamMode, lookup, find_entry};
use crate::packet::{Packet, passthrough_spec, passthrough_timing, encoded_spec, encoded_timing, encoded_duration, duration_defined};
use crate::rational::{Rational, Rounding, rescaled};

verus! {

/// The outcome of the last action.
#[derive(Clone, Copy, Debug, PartialEq, Eq, Structural)]
pub enum Event {
    /// The source produced a unit.
    Read(Packet),
    /// The source has no more units.
    EndOfInput,
    /// The source met a corrupt unit; it is skipped.
    ReadFailed,
    /// The action completed.
    Done,
    /// A codec refused a submission until its pending output is drained.
    Again,
    /// A codec failed with this code.
    Failed(i32),
    /// The decoder produced a frame.
    Frame,
    /// The encoder produced a unit.
    Encoded(Packet),
    /// The codec has no output right now.
    WouldBlock,
    /// The codec has no more output.
    EndOfStream,
}

/// What the driver does next.
#[derive(Clone, Copy, Debug, PartialEq, Eq, Structural)]
pub enum Action {
    /// Read the next unit from the source.
    ReadNext,
    /// Release the held input unit.
    Release,
    /// Write the input unit just read, with these timings; the write consumes it.
    WriteInput(Packet),
    /// Submit the held input unit to the decoder.
    SubmitPacket,
    /// Retrieve the decoder's next output.
    DrainDecoder,
    /// Submit the decoded frame to the encoder.
    SubmitFrame,
    /// Retrieve the encoder's next output.
    DrainEncoder,
    /// Write the encoded unit just retrieved, with these timings.
    WriteEncoded(Packet),
    /// Signal end of stream to the encoder.
    FlushEncoder,
    /// Write the trailer and close the sink.
    Close,
    /// The run is over.
    Finished,
}

/// Which outcome the machine waits for.
#[derive(Clone, Copy, Debug, PartialEq, Eq, Structural)]
pub enum Phase {
    AwaitRead,
    AwaitWrite,
    AwaitRelease,
    AwaitSubmitPacket,
    AwaitFrame,
    AwaitSubmitFrame,
    AwaitEncoded,
    AwaitEncodedWrite,
    AwaitFlush,
    AwaitClose,
    Finished,
}

/// Why a run stopped early.
#[derive(Clone, Copy, Debug, PartialEq, Eq, Structural)]
pub enum Failure {
    /// A codec failed with this code.
    Codec(i32),
    /// An event came that does not answer the last action.
    UnexpectedEvent,
}

/// Why a plan was refused.
#[derive(Clone, Copy, Debug, PartialEq, Eq, Structural)]
pub enum PlanError {
    /// The tables do not fit together.
    Inconsistent,
    /// The re-encoded stream has no derivable frame duration.
    NoFrameDuration,
}

/// The changing part of a run.
#[derive(Clone, Copy, Debug, PartialEq, Eq, Structural)]
pub struct Control {
    pub phase: Phase,
    /// The driver holds an input unit that is not yet disposed of.
    pub holding: bool,
    /// The held unit is to be submitted again once the decoder is drained.
    pub packet_again: bool,
    /// The frame is to be submitted again once the encoder is drained.
    pub frame_again: bool,
    /// The main loop is over and the encoder is being flushed.
    pub flushing: bool,
    /// Close has been requested.
    pub closed: bool,
    /// The first failure met, if any.
    pub failure: Option<Failure>,
}

/// The fixed part of a run: the mapping table, the time bases of the input
/// streams (by input index) and of the output streams (by output index), the
/// stream to re-encode and its frame rate.
#[derive(Debug)]
pub struct Plan {
    pub mapping: Vec<MapEntry>,
    pub in_time_bases: Vec<Rational>,
    pub out_time_bases: Vec<Rational>,
    pub reencode: Option<usize>,
    pub frame_rate: Rational,
}

/// The tables of a plan fit together.
pub open spec fn plan_shape_ok(plan: Plan) -> bool {
    let m = plan.mapping@;
    &&& plan.in_time_bases@.len() == m.len()
    &&& plan.out_time_bases@.len() <= i32::MAX
    &&& forall|i: int| 0 <= i < m.len() ==> m[i].output_index < plan.out_time_bases@.len()
    &&& forall|i: int| 0 <= i < m.len() ==> (m[i].mode == StreamMode::Reencode <==> plan.reencode == Some(i as usize))
    &&& match plan.reencode {
        Some(v) => v < m.len(),
        None => true,
    }
}

/// The re-encoded stream, if any, has a derivable frame duration.
pub open spec fn plan_timed(plan: Plan) -> bool {
    match plan.reencode {
        Some(v) => duration_defined(plan.out_time_bases@[plan.mapping@[v as int].output_index as int], plan.frame_rate),
        None => true,
    }
}

pub open spec fn plan_ok(plan: Plan) -> bool {
    plan_shape_ok(plan) && plan_timed(plan)
}

/// The state in which a run starts: waiting for its first read.
pub open spec fn initial_control() -> Control {
    Control {
        phase: Phase::AwaitRead,
        holding: false,
        packet_again: false,
        frame_again: false,
        flushing: false,
        closed: false,
        failure: None,
    }
}

/// The phases in which the machine talks to the codecs.
pub open spec fn codec_phase(p: Phase) -> bool {
    p == Phase::AwaitSubmitPacket || p == Phase::AwaitFrame || p == Phase::AwaitSubmitFrame
        || p == Phase::AwaitEncoded || p == Phase::AwaitEncodedWrite || p == Phase::AwaitFlush
}

/// The states that a run can be in.
pub open spec fn control_ok(plan: Plan, c: Control) -> bool {
    &&& c.closed <==> (c.phase == Phase::AwaitClose || c.phase == Phase::Finished)
    &&& c.flushing ==> (c.phase == Phase::AwaitFlush || c.phase == Phase::AwaitEncoded
        || c.phase == Phase::AwaitEncodedWrite || c.closed)
    &&& c.phase == Phase::AwaitFlush ==> c.flushing
    &&& codec_phase(c.phase) ==> plan.reencode.is_some()
    &&& c.holding <==> (c.phase == Phase::AwaitRelease || c.phase == Phase::AwaitSubmitPacket
        || c.phase == Phase::AwaitFrame || c.phase == Phase::AwaitSubmitFrame
        || ((c.phase == Phase::AwaitEncoded || c.phase == Phase::AwaitEncodedWrite) && !c.flushing))
    &&& (c.failure.is_some() && !c.flushing && !c.closed) ==> c.phase == Phase::AwaitRelease
}

/// Records `f` unless a failure is already recorded.
pub open spec fn with_failure(c: Control, f: Failure) -> Control {
    Control { failure: if c.failure.is_some() { c.failure } else { Some(f) }, ..c }
}

/// End of the main loop: flush the encoder if there is one, else close.
pub open spec fn begin_flush(plan: Plan, c: Control) -> (Control, Action) {
    if plan.reencode.is_some() {
        (Control { phase: Phase::AwaitFlush, holding: false, flushing: true, ..c }, Action::FlushEncoder)
    } else {
        (Control { phase: Phase::AwaitClose, holding: false, closed: true, ..c }, Action::Close)
    }
}

/// Stop the main loop on failure `f`: release the held unit first, then flush.
pub open spec fn abort(plan: Plan, c: Control, f: Failure) -> (Control, Action) {
    let c1 = Control { packet_again: false, frame_again: false, ..with_failure(c, f) };
    if c.holding {
        (Control { phase: Phase::AwaitRelease, ..c1 }, Action::Release)
    } else {
        begin_flush(plan, c1)
    }
}

pub open spec fn close(c: Control) -> (Control, Action) {
    (Control { phase: Phase::AwaitClose, closed: true, ..c }, Action::Close)
}

/// Where a unit read from the source goes, by its stream's row.
pub open spec fn on_read(plan: Plan, c: Control, p: Packet) -> (Control, Action) {
    match lookup(plan.mapping@, p.stream_index) {
        Some(e) => match e.mode {
            StreamMode::PassThrough => (
                Control { phase: Phase::AwaitWrite, ..c },
                Action::WriteInput(passthrough_spec(
                    p,
                    plan.in_time_bases@[p.stream_index as int],
                    plan.out_time_bases@[e.output_index as int],
                    e.output_index as i32,
                )),
            ),
            StreamMode::Reencode => (Control { phase: Phase::AwaitSubmitPacket, holding: true, ..c }, Action::SubmitPacket),
            StreamMode::Drop => (Control { phase: Phase::AwaitRelease, holding: true, ..c }, Action::Release),
        },
        None => (Control { phase: Phase::AwaitRelease, holding: true, ..c }, Action::Release),
    }
}

/// An encoded unit as written: restamped for the re-encoded stream's output.
pub open spec fn encoded_out(plan: Plan, q: Packet) -> Packet {
    let v = plan.reencode->Some_0 as int;
    let e = plan.mapping@[v];
    encoded_spec(q, plan.in_time_bases@[v], plan.out_time_bases@[e.output_index as int], plan.frame_rate, e.output_index as i32)
}

/// The decision for outcome `ev` in state `c`.
pub open spec fn transition(plan: Plan, c: Control, ev: Event) -> (Control, Action) {
    match c.phase {
        Phase::AwaitRead => match ev {
            Event::Read(p) => on_read(plan, c, p),
            Event::EndOfInput => begin_flush(plan, c),
            Event::ReadFailed => (c, Action::ReadNext),
            _ => abort(plan, c, Failure::UnexpectedEvent),
        },
        Phase::AwaitWrite => (Control { phase: Phase::AwaitRead, ..c }, Action::ReadNext),
        Phase::AwaitRelease => {
            let c1 = Control { holding: false, ..c };
            if c.failure.is_some() {
                begin_flush(plan, c1)
            } else {
                (Control { phase: Phase::AwaitRead, ..c1 }, Action::ReadNext)
            }
        },
        Phase::AwaitSubmitPacket => match ev {
            Event::Done => (Control { phase: Phase::AwaitFrame, ..c }, Action::DrainDecoder),
            Event::Again => (Control { phase: Phase::AwaitFrame, packet_again: true, ..c }, Action::DrainDecoder),
            Event::Failed(e) => abort(plan, c, Failure::Codec(e)),
            _ => abort(plan, c, Failure::UnexpectedEvent),
        },
        Phase::AwaitFrame => match ev {
            Event::Frame => (Control { phase: Phase::AwaitSubmitFrame, ..c }, Action::SubmitFrame),
            Event::WouldBlock | Event::EndOfStream => if c.packet_again {
                (Control { phase: Phase::AwaitSubmitPacket, packet_again: false, ..c }, Action::SubmitPacket)
            } else {
                (Control { phase: Phase::AwaitRelease, ..c }, Action::Release)
            },
            Event::Failed(e) => abort(plan, c, Failure::Codec(e)),
            _ => abort(plan, c, Failure::UnexpectedEvent),
        },
        Phase::AwaitSubmitFrame => match ev {
            Event::Done => (Control { phase: Phase::AwaitEncoded, ..c }, Action::DrainEncoder),
            Event::Again => (Control { phase: Phase::AwaitEncoded, frame_again: true, ..c }, Action::DrainEncoder),
            Event::Failed(e) => abort(plan, c, Failure::Codec(e)),
            _ => abort(plan, c, Failure::UnexpectedEvent),
        },
        Phase::AwaitEncoded => match ev {
            Event::Encoded(q) => (Control { phase: Phase::AwaitEncodedWrite, ..c }, Action::WriteEncoded(encoded_out(plan, q))),
            Event::WouldBlock | Event::EndOfStream => if c.flushing {
                close(c)
            } else if c.frame_again {
                (Control { phase: Phase::AwaitSubmitFrame, frame_again: false, ..c }, Action::SubmitFrame)
            } else {
                (Control { phase: Phase::AwaitFrame, ..c }, Action::DrainDecoder)
            },
            Event::Failed(e) => if c.flushing {
                close(with_failure(c, Failure::Codec(e)))
            } else {
                abort(plan, c, Failure::Codec(e))
            },
            _ => if c.flushing {
                close(with_failure(c, Failure::UnexpectedEvent))
            } else {
                abort(plan, c, Failure::UnexpectedEvent)
            },
        },
        Phase::AwaitEncodedWrite => (Control { phase: Phase::AwaitEncoded, ..c }, Action::DrainEncoder),
        Phase::AwaitFlush => (Control { phase: Phase::AwaitEncoded, ..c }, Action::DrainEncoder),
        Phase::AwaitClose => (Control { phase: Phase::Finished, ..c }, Action::Finished),
        Phase::Finished => (c, Action::Finished),
    }
}

/// Every decision keeps a run within the states that it can be in.
pub proof fn lemma_transition_keeps_control_ok(plan: Plan, c: Control, ev: Event)
    requires
        plan_ok(plan),
        control_ok(plan, c),
    ensures
        control_ok(plan, transition(plan, c, ev).0),
{
}

fn exec_begin_flush(plan: &Plan, c: Control) -> (r: (Control, Action))
    ensures
        r == begin_flush(*plan, c),
{
    if plan.reencode.is_some() {
        (Control { phase: Phase::AwaitFlush, holding: false, flushing: true, ..c }, Action::FlushEncoder)
    } else {
        (Control { phase: Phase::AwaitClose, holding: false, closed: true, ..c }, Action::Close)
    }
}

fn exec_with_failure(c: Control, f: Failure) -> (r: Control)
    ensures
        r == with_failure(c, f),
{
    Control { failure: if c.failure.is_some() { c.failure } else { Some(f) }, ..c }
}

fn exec_abort(plan: &Plan, c: Control, f: Failure) -> (r: (Control, Action))
    ensures
        r == abort(*plan, c, f),
{
    let c1 = Control { packet_again: false, frame_again: false, ..exec_with_failure(c, f) };
    if c.holding {
        (Control { phase: Phase::AwaitRelease, ..c1 }, Action::Release)
    } else {
        exec_begin_flush(plan, c1)
    }
}

fn exec_on_read(plan: &Plan, c: Control, p: Packet) -> (r: (Control, Action))
    requires
        plan_ok(*plan),
    ensures
        r == on_read(*plan, c, p),
{
    match find_entry(&plan.mapping, p.stream_index) {
        Some(e) => match e.mode {
            StreamMode::PassThrough => {
                let q = passthrough_timing(
                    p,
                    plan.in_time_bases[p.stream_index as usize],
                    plan.out_time_bases[e.output_index],
                    e.output_index as i32,
                );
                (Control { phase: Phase::AwaitWrite, ..c }, Action::WriteInput(q))
            },
            StreamMode::Reencode => (Control { phase: Phase::AwaitSubmitPacket, holding: true, ..c }, Action::SubmitPacket),
            StreamMode::Drop => (Control { phase: Phase::AwaitRelease, holding: true, ..c }, Action::Release),
        },
        None => (Control { phase: Phase::AwaitRelease, holding: true, ..c }, Action::Release),
    }
}

fn exec_encoded_out(plan: &Plan, q: Packet) -> (r: Packet)
    requires
        plan_ok(*plan),
        plan.reencode.is_some(),
    ensures
        r == encoded_out(*plan, q),
{
    let v = match plan.reencode {
        Some(v) => v,
        None => 0,
    };
    let e = plan.mapping[v];
    encoded_timing(q, plan.in_time_bases[v], plan.out_time_bases[e.output_index], plan.frame_rate, e.output_index as i32)
}

/// The decision for outcome `ev` in state `c` of a run with plan `plan`.
pub fn decide(plan: &Plan, c: Control, ev: Event) -> (r: (Control, Action))
    requires
        plan_ok(*plan),
        control_ok(*plan, c),
    ensures
        r == transition(*plan, c, ev),
        control_ok(*plan, r.0),
{
    proof {
        lemma_transition_keeps_control_ok(*plan, c, ev);
    }
    match c.phase {
        Phase::AwaitRead => match ev {
            Event::Read(p) => exec_on_read(plan, c, p),
            Event::EndOfInput => exec_begin_flush(plan, c),
            Event::ReadFailed => (c, Action::ReadNext),
            _ => exec_abort(plan, c, Failure::UnexpectedEvent),
        },
        Phase::AwaitWrite => (Control { phase: Phase::AwaitRead, ..c }, Action::ReadNext),
        Phase::AwaitRelease => {
            let c1 = Control { holding: false, ..c };
            if c.failure.is_some() {
                exec_begin_flush(plan, c1)
            } else {
                (Control { phase: Phase::AwaitRead, ..c1 }, Action::ReadNext)
            }
        },
        Phase::AwaitSubmitPacket => match ev {
            Event::Done => (Control { phase: Phase::AwaitFrame, ..c }, Action::DrainDecoder),
            Event::Again => (Control { phase: Phase::AwaitFrame, packet_again: true, ..c }, Action::DrainDecoder),
            Event::Failed(e) => exec_abort(plan, c, Failure::Codec(e)),
            _ => exec_abort(plan, c, Failure::UnexpectedEvent),
        },
        Phase::AwaitFrame => match ev {
            Event::Frame => (Control { phase: Phase::AwaitSubmitFrame, ..c }, Action::SubmitFrame),
            Event::WouldBlock | Event::EndOfStream => if c.packet_again {
                (Control { phase: Phase::AwaitSubmitPacket, packet_again: false, ..c }, Action::SubmitPacket)
            } else {
                (Control { phase: Phase::AwaitRelease, ..c }, Action::Release)
            },
            Event::Failed(e) => exec_abort(plan, c, Failure::Codec(e)),
            _ => exec_abort(plan, c, Failure::UnexpectedEvent),
        },
        Phase::AwaitSubmitFrame => match ev {
            Event::Done => (Control { phase: Phase::AwaitEncoded, ..c }, Action::DrainEncoder),
            Event::Again => (Control { phase: Phase::AwaitEncoded, frame_again: true, ..c }, Action::DrainEncoder),
            Event::Failed(e) => exec_abort(plan, c, Failure::Codec(e)),
            _ => exec_abort(plan, c, Failure::UnexpectedEvent),
        },
        Phase::AwaitEncoded => match ev {
            Event::Encoded(q) => (Control { phase: Phase::AwaitEncodedWrite, ..c }, Action::WriteEncoded(exec_encoded_out(plan, q))),
            Event::WouldBlock | Event::EndOfStream => if c.flushing {
                (Control { phase: Phase::AwaitClose, closed: true, ..c }, Action::Close)
            } else if c.frame_again {
                (Control { phase: Phase::AwaitSubmitFrame, frame_again: false, ..c }, Action::SubmitFrame)
            } else {
                (Control { phase: Phase::AwaitFrame, ..c }, Action::DrainDecoder)
            },
            Event::Failed(e) => if c.flushing {
                (Control { phase: Phase::AwaitClose, closed: true, ..exec_with_failure(c, Failure::Codec(e)) }, Action::Close)
            } else {
                exec_abort(plan, c, Failure::Codec(e))
            },
            _ => if c.flushing {
                (Control { phase: Phase::AwaitClose, closed: true, ..exec_with_failure(c, Failure::UnexpectedEvent) }, Action::Close)
            } else {
                exec_abort(plan, c, Failure::UnexpectedEvent)
            },
        },
        Phase::AwaitEncodedWrite => (Control { phase: Phase::AwaitEncoded, ..c }, Action::DrainEncoder),
        Phase::AwaitFlush => (Control { phase: Phase::AwaitEncoded, ..c }, Action::DrainEncoder),
        Phase::AwaitClose => (Control { phase: Phase::Finished, ..c }, Action::Finished),
        Phase::Finished => (c, Action::Finished),
    }
}

fn check_shape(plan: &Plan) -> (r: bool)
    ensures
        r == plan_shape_ok(*plan),
{
    let n = plan.mapping.len();
    if plan.in_time_bases.len() != n || plan.out_time_bases.len() > i32::MAX as usize {
        return false;
    }
    match plan.reencode {
        Some(v) => if v >= n {
            return false;
        },
        None => {},
    }
    let mut i: usize = 0;
    while i < n
        invariant
            i <= n,
            n == plan.mapping@.len(),
            forall|j: int| 0 <= j < i ==> plan.mapping@[j].output_index < plan.out_time_bases@.len(),
            forall|j: int| 0 <= j < i ==> (plan.mapping@[j].mode == StreamMode::Reencode <==> plan.reencode == Some(j as usize)),
        decreases n - i,
    {
        let e = plan.mapping[i];
        if e.output_index >= plan.out_time_bases.len() {
            return false;
        }
        let selected = match plan.reencode {
            Some(v) => v == i,
            None => false,
        };
        let reencoded = match e.mode {
            StreamMode::Reencode => true,
            _ => false,
        };
        if reencoded != selected {
            return false;
        }
        i = i + 1;
    }
    true
}

fn check_timed(plan: &Plan) -> (r: bool)
    requires
        plan_shape_ok(*plan),
    ensures
        r == plan_timed(*plan),
{
    match plan.reencode {
        Some(v) => {
            let e = plan.mapping[v];
            encoded_duration(plan.out_time_bases[e.output_index], plan.frame_rate).is_some()
        },
        None => true,
    }
}

/// A run in progress: its plan and where it stands.
pub struct Pipeline {
    plan: Plan,
    control: Control,
}

impl Pipeline {
    pub closed spec fn spec_plan(&self) -> Plan {
        self.plan
    }

    pub closed spec fn spec_control(&self) -> Control {
        self.control
    }

    pub open spec fn wf(&self) -> bool {
        plan_ok(self.spec_plan()) && control_ok(self.spec_plan(), self.spec_control())
    }

    /// Starts a run with `plan`, waiting for the outcome of the first read.
    /// A plan whose tables do not fit together is `Inconsistent`; one whose
    /// re-encoded stream has no derivable frame duration is `NoFrameDuration`.
    pub fn new(plan: Plan) -> (r: Result<Pipeline, PlanError>)
        ensures
            !plan_shape_ok(plan) <==> r == Err::<Pipeline, PlanError>(PlanError::Inconsistent),
            (plan_shape_ok(plan) && !plan_timed(plan)) <==> r == Err::<Pipeline, PlanError>(PlanError::NoFrameDuration),
            r.is_ok() ==> r->Ok_0.wf() && r->Ok_0.spec_plan() == plan && r->Ok_0.spec_control() == initial_control(),
    {
        if !check_shape(&plan) {
            return Err(PlanError::Inconsistent);
        }
        if !check_timed(&plan) {
            return Err(PlanError::NoFrameDuration);
        }
        Ok(Pipeline {
            plan,
            control: Control {
                phase: Phase::AwaitRead,
                holding: false,
                packet_again: false,
                frame_again: false,
                flushing: false,
                closed: false,
                failure: None,
            },
        })
    }

    /// Takes the outcome of the last action and returns the next action.
    pub fn step(&mut self, ev: Event) -> (a: Action)
        requires
            old(self).wf(),
        ensures
            final(self).wf(),
            final(self).spec_plan() == old(self).spec_plan(),
            (final(self).spec_control(), a) == transition(old(self).spec_plan(), old(self).spec_control(), ev),
    {
        let (c, a) = decide(&self.plan, self.control, ev);
        self.control = c;
        a
    }

    /// Where the run stands.
    pub fn control(&self) -> (r: Control)
        ensures
            r == self.spec_control(),
    {
        self.control
    }

    /// The first failure met, if any.
    pub fn failure(&self) -> (r: Option<Failure>)
        ensures
            r == self.spec_control().failure,
    {
        self.control.failure
    }
}

/// The state and the actions after a run of decisions on `evs`.
pub open spec fn run(plan: Plan, c: Control, evs: Seq<Event>) -> (Control, Seq<Action>)
    decreases evs.len(),
{
    if evs.len() == 0 {
        (c, Seq::empty())
    } else {
        let (c1, a) = transition(plan, c, evs[0]);
        let (cn, rest) = run(plan, c1, evs.drop_first());
        (cn, seq![a] + rest)
    }
}

/// How many of `acts` close the sink.
pub open spec fn close_count(acts: Seq<Action>) -> nat
    decreases acts.len(),
{
    if acts.len() == 0 {
        0
    } else {
        (if acts[0] == Action::Close { 1nat } else { 0nat }) + close_count(acts.drop_first())
    }
}

/// The main loop is over: the input ended, a failure stopped it, or the sink
/// is already being closed.
pub open spec fn loop_ended(c: Control) -> bool {
    c.failure.is_some() || c.flushing || c.closed
}

/// An upper bound on the decisions left before the close, when no further
/// encoded unit comes.
pub open spec fn steps_to_close(c: Control) -> nat {
    match c.phase {
        Phase::AwaitRelease => 3,
        Phase::AwaitFlush => 2,
        Phase::AwaitEncodedWrite => 2,
        Phase::AwaitEncoded => 1,
        _ => 0,
    }
}

/// A unit read from a passed-through stream `i` is written at once to output
/// stream `j = mapping[i].output_index`, with pts and dts rescaled from the
/// input time base of `i` to the output time base of `j` (nearest rounding,
/// unknown and extreme values kept) and the duration rescaled.
pub proof fn lemma_passthrough_timestamps(plan: Plan, c: Control, p: Packet)
    requires
        plan_ok(plan),
        c.phase == Phase::AwaitRead,
        0 <= p.stream_index < plan.mapping@.len(),
        plan.mapping@[p.stream_index as int].mode == StreamMode::PassThrough,
    ensures
        ({
            let i = p.stream_index as int;
            let j = plan.mapping@[i].output_index as int;
            let (c2, a) = transition(plan, c, Event::Read(p));
            &&& a is WriteInput
            &&& a->WriteInput_0.stream_index == j
            &&& a->WriteInput_0.pts == rescaled(p.pts, plan.in_time_bases@[i], plan.out_time_bases@[j], Rounding::NearInf, true)
            &&& a->WriteInput_0.dts == rescaled(p.dts, plan.in_time_bases@[i], plan.out_time_bases@[j], Rounding::NearInf, true)
            &&& a->WriteInput_0.duration == rescaled(p.duration, plan.in_time_bases@[i], plan.out_time_bases@[j], Rounding::NearInf, false)
            &&& c2.phase == Phase::AwaitWrite
        }),
{
}

/// Every input unit that is written, in whatever state, is the unit just
/// read, from a passed-through stream `i`, restamped for output stream
/// `j = mapping[i].output_index` with its pts rescaled from the time base of
/// `i` to that of `j`.
pub proof fn lemma_input_writes_are_rescaled(plan: Plan, c: Control, ev: Event)
    requires
        plan_ok(plan),
        control_ok(plan, c),
        transition(plan, c, ev).1 is WriteInput,
    ensures
        ({
            let w = transition(plan, c, ev).1->WriteInput_0;
            let p = ev->Read_0;
            let i = p.stream_index as int;
            let j = plan.mapping@[i].output_index as int;
            &&& ev is Read
            &&& c.phase == Phase::AwaitRead
            &&& 0 <= i < plan.mapping@.len()
            &&& plan.mapping@[i].mode == StreamMode::PassThrough
            &&& w.stream_index == j
            &&& w.pts == rescaled(p.pts, plan.in_time_bases@[i], plan.out_time_bases@[j], Rounding::NearInf, true)
            &&& w == passthrough_spec(p, plan.in_time_bases@[i], plan.out_time_bases@[j], j as i32)
        }),
{
}

/// Over any sequence of outcomes, the sink is closed at most once: exactly
/// once when the run goes from open to closed, never when it was closed
/// before, and a closed run stays closed.
pub proof fn lemma_close_once(plan: Plan, c: Control, evs: Seq<Event>)
    requires
        plan_ok(plan),
        control_ok(plan, c),
    ensures
        control_ok(plan, run(plan, c, evs).0),
        c.closed ==> run(plan, c, evs).0.closed,
        close_count(run(plan, c, evs).1) == if !c.closed && run(plan, c, evs).0.closed { 1nat } else { 0nat },
    decreases evs.len(),
{
    if evs.len() > 0 {
        let (c1, a) = transition(plan, c, evs[0]);
        lemma_transition_keeps_control_ok(plan, c, evs[0]);
        lemma_close_once(plan, c1, evs.drop_first());
        let rest = run(plan, c1, evs.drop_first()).1;
        let acts = seq![a] + rest;
        assert(acts[0] == a);
        assert(acts.drop_first() =~= rest);
        assert(a == Action::Close <==> (!c.closed && c1.closed));
    }
}

/// The phases in which a codec's answer is inspected.
pub open spec fn codec_answer_phase(p: Phase) -> bool {
    p == Phase::AwaitSubmitPacket || p == Phase::AwaitFrame || p == Phase::AwaitSubmitFrame
        || p == Phase::AwaitEncoded
}

/// The main loop ends on the end of input and on every codec failure.
pub proof fn lemma_loop_ends(plan: Plan, c: Control, ev: Event)
    requires
        plan_ok(plan),
        control_ok(plan, c),
        (c.phase == Phase::AwaitRead && ev == Event::EndOfInput) || (codec_answer_phase(c.phase) && ev is Failed),
    ensures
        loop_ended(transition(plan, c, ev).0),
{
}

/// Once the main loop has ended, every outcome but a further encoded unit
/// brings the run strictly closer to closing the sink, and none of them
/// takes it back into the main loop; so the close always comes once the
/// encoder has no more output.
pub proof fn lemma_ended_run_reaches_close(plan: Plan, c: Control, ev: Event)
    requires
        plan_ok(plan),
        control_ok(plan, c),
        loop_ended(c),
        !c.closed,
    ensures
        ({
            let (c2, a) = transition(plan, c, ev);
            &&& loop_ended(c2)
            &&& a == Action::Close || a == Action::Release || a == Action::FlushEncoder
                || a == Action::DrainEncoder || a is WriteEncoded
            &&& !(ev is Encoded) ==> (a == Action::Close || steps_to_close(c2) < steps_to_close(c))
            &&& a == Action::Close ==> c2.closed
        }),
{
}

/// Once the main loop has ended, the sink is closed after any
/// `steps_to_close(c) + 1` or more outcomes among which no further encoded
/// unit comes.
pub proof fn lemma_ended_run_closes(plan: Plan, c: Control, evs: Seq<Event>)
    requires
        plan_ok(plan),
        control_ok(plan, c),
        loop_ended(c),
        evs.len() > steps_to_close(c),
        forall|k: int| 0 <= k < evs.len() ==> !(evs[k] is Encoded),
    ensures
        run(plan, c, evs).0.closed,
    decreases evs.len(),
{
    if c.closed {
        lemma_close_once(plan, c, evs);
    } else {
        let (c1, a) = transition(plan, c, evs[0]);
        lemma_ended_run_reaches_close(plan, c, evs[0]);
        lemma_transition_keeps_control_ok(plan, c, evs[0]);
        let rest = evs.drop_first();
        if c1.closed {
            lemma_close_once(plan, c1, rest);
        } else {
            assert forall|k: int| 0 <= k < rest.len() implies !(rest[k] is Encoded) by {
                assert(rest[k] == evs[k + 1]);
            }
            lemma_ended_run_closes(plan, c1, rest);
        }
    }
}

/// Every input unit has one owner and is disposed of exactly once: a unit
/// is held from its read until the release that ends it, no read or close
/// happens while one is held, a release is asked only for a held unit that
/// no release is pending for, and a passed-through unit is disposed of by
/// its write.
pub proof fn lemma_unit_ownership(plan: Plan, c: Control, ev: Event)
    requires
        plan_ok(plan),
        control_ok(plan, c),
    ensures
        ({
            let (c2, a) = transition(plan, c, ev);
            &&& (a == Action::ReadNext || a == Action::Close || a == Action::FlushEncoder) ==> !c2.holding
            &&& (c.holding && c.phase != Phase::AwaitRelease) ==> c2.holding
            &&& (c.holding && c.phase == Phase::AwaitRelease) ==> !c2.holding
            &&& a == Action::Release ==> (c2.holding && c2.phase == Phase::AwaitRelease && c.phase != Phase::AwaitRelease)
            &&& a is WriteInput ==> (!c.holding && !c2.holding && ev is Read)
        }),
{
}

} // verus!
