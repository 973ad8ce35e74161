//! The usage protocol of a destination container: streams are added, the
//! header is written once, units are written to known streams, and the
//! container is closed once.

use vstd::prelude::*;

verus! {

/// Where a destination container stands.
#[derive(Clone, Copy, Debug, PartialEq, Eq, Structural)]
pub enum SinkStage {
    /// Streams may be added; nothing written yet.
    Building,
    /// The header is written; units may be written.
    Writing,
    /// The trailer is written.
    Closed,
}

/// A use of the sink out of order.
#[derive(Clone, Copy, Debug, PartialEq, Eq, Structural)]
pub enum SinkError {
    /// The header is already written.
    HeaderWritten,
    /// The header is not written yet.
    HeaderNotWritten,
    /// The sink is closed.
    Closed,
    /// No output stream has this index.
    NoSuchStream,
    /// No more streams can be counted.
    TooManyStreams,
}

/// The protocol state of a destination container.
#[derive(Clone, Copy, Debug, PartialEq, Eq, Structural)]
pub struct SinkState {
    /// Output streams added so far.
    pub streams: usize,
    pub stage: SinkStage,
}

impl SinkState {
    /// A sink with no stream and no header.
    pub fn new() -> (r: SinkState)
        ensures
            r == (SinkState { streams: 0, stage: SinkStage::Building }),
    {
        SinkState { streams: 0, stage: SinkStage::Building }
    }

    /// Adds an output stream and returns its index: streams are numbered in
    /// the order they are added. Refused once the header is written.
    pub fn add_stream(&mut self) -> (r: Result<usize, SinkError>)
        ensures
            old(self).stage == SinkStage::Building && old(self).streams < usize::MAX ==> (
                r == Ok::<usize, SinkError>(old(self).streams)
                && *final(self) == (SinkState { streams: (old(self).streams + 1) as usize, ..*old(self) })),
            old(self).stage == SinkStage::Building && old(self).streams == usize::MAX ==> (
                r == Err::<usize, SinkError>(SinkError::TooManyStreams) && *final(self) == *old(self)),
            old(self).stage == SinkStage::Writing ==> (
                r == Err::<usize, SinkError>(SinkError::HeaderWritten) && *final(self) == *old(self)),
            old(self).stage == SinkStage::Closed ==> (
                r == Err::<usize, SinkError>(SinkError::Closed) && *final(self) == *old(self)),
    {
        match self.stage {
            SinkStage::Building => {
                if self.streams == usize::MAX {
                    Err(SinkError::TooManyStreams)
                } else {
                    let index = self.streams;
                    self.streams = index + 1;
                    Ok(index)
                }
            },
            SinkStage::Writing => Err(SinkError::HeaderWritten),
            SinkStage::Closed => Err(SinkError::Closed),
        }
    }

    /// Marks the header written; allowed once, after the streams are added.
    pub fn finalize_headers(&mut self) -> (r: Result<(), SinkError>)
        ensures
            old(self).stage == SinkStage::Building ==> (
                r == Ok::<(), SinkError>(()) && *final(self) == (SinkState { stage: SinkStage::Writing, ..*old(self) })),
            old(self).stage == SinkStage::Writing ==> (
                r == Err::<(), SinkError>(SinkError::HeaderWritten) && *final(self) == *old(self)),
            old(self).stage == SinkStage::Closed ==> (
                r == Err::<(), SinkError>(SinkError::Closed) && *final(self) == *old(self)),
    {
        match self.stage {
            SinkStage::Building => {
                self.stage = SinkStage::Writing;
                Ok(())
            },
            SinkStage::Writing => Err(SinkError::HeaderWritten),
            SinkStage::Closed => Err(SinkError::Closed),
        }
    }

    /// Whether a unit may be written to output stream `index` now.
    pub fn check_write(&self, index: usize) -> (r: Result<(), SinkError>)
        ensures
            r == (match self.stage {
                SinkStage::Building => Err::<(), SinkError>(SinkError::HeaderNotWritten),
                SinkStage::Closed => Err(SinkError::Closed),
                SinkStage::Writing => if index < self.streams { Ok(()) } else { Err(SinkError::NoSuchStream) },
            }),
    {
        match self.stage {
            SinkStage::Building => Err(SinkError::HeaderNotWritten),
            SinkStage::Closed => Err(SinkError::Closed),
            SinkStage::Writing => if index < self.streams { Ok(()) } else { Err(SinkError::NoSuchStream) },
        }
    }

    /// Marks the trailer written; allowed once, after the header.
    pub fn close(&mut self) -> (r: Result<(), SinkError>)
        ensures
            old(self).stage == SinkStage::Writing ==> (
                r == Ok::<(), SinkError>(()) && *final(self) == (SinkState { stage: SinkStage::Closed, ..*old(self) })),
            old(self).stage == SinkStage::Building ==> (
                r == Err::<(), SinkError>(SinkError::HeaderNotWritten) && *final(self) == *old(self)),
            old(self).stage == SinkStage::Closed ==> (
                r == Err::<(), SinkError>(SinkError::Closed) && *final(self) == *old(self)),
    {
        match self.stage {
            SinkStage::Writing => {
                self.stage = SinkStage::Closed;
                Ok(())
            },
            SinkStage::Building => Err(SinkError::HeaderNotWritten),
            SinkStage::Closed => Err(SinkError::Closed),
        }
    }
}

} // verus!
