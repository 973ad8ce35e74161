//! The command surface: which run a command line asks for.

use vstd::prelude::*;

verus! {

/// A parsed command line.
#[derive(Debug)]
pub struct Opts {
    pub subcmd: SubCommand,
}

/// The runs that can be asked for.
#[derive(Debug)]
pub enum SubCommand {
    /// Save records of decoded video frames.
    Frames(Frames),
    /// Copy every stream into a new container.
    Remux(Remux),
    /// Same run as `Remux`, under its older name.
    Transmux(Transmux),
    /// Re-encode the video stream, copy the others.
    Transcode(Transcode),
    /// List the supported codec and container names.
    Formats,
}

/// Arguments of a frame dump: the input and how many frames to save (all
/// of them when no count is given).
#[derive(Debug)]
pub struct Frames {
    pub input: String,
    pub number: Option<u64>,
}

#[derive(Debug)]
pub struct Remux {
    pub input: String,
    pub output: String,
}

#[derive(Debug)]
pub struct Transmux {
    pub input: String,
    pub output: String,
}

#[derive(Debug)]
pub struct Transcode {
    pub input: String,
    pub output: String,
}

/// The kind of run that a subcommand starts.
#[derive(Clone, Copy, Debug, PartialEq, Eq, Structural)]
pub enum RunKind {
    FrameDump,
    /// Every stream passed through.
    PassThrough,
    /// The first video stream re-encoded, the others passed through.
    Reencode,
    /// No pipeline: a listing.
    Listing,
}

impl SubCommand {
    pub open spec fn spec_kind(&self) -> RunKind {
        match self {
            SubCommand::Frames(_) => RunKind::FrameDump,
            SubCommand::Remux(_) | SubCommand::Transmux(_) => RunKind::PassThrough,
            SubCommand::Transcode(_) => RunKind::Reencode,
            SubCommand::Formats => RunKind::Listing,
        }
    }

    /// The kind of run: remux and transmux are one and the same run.
    pub fn kind(&self) -> (r: RunKind)
        ensures
            r == self.spec_kind(),
    {
        match self {
            SubCommand::Frames(_) => RunKind::FrameDump,
            SubCommand::Remux(_) | SubCommand::Transmux(_) => RunKind::PassThrough,
            SubCommand::Transcode(_) => RunKind::Reencode,
            SubCommand::Formats => RunKind::Listing,
        }
    }
}

impl Frames {
    /// How many frames to save: the count given, else every frame.
    pub fn wanted(&self) -> (r: u64)
        ensures
            r == match self.number {
                Some(n) => n,
                None => u64::MAX,
            },
    {
        match self.number {
            Some(n) => n,
            None => u64::MAX,
        }
    }
}

} // verus!
