//! The stream-mapping table: for each input stream, where its units go.

use vstd::prelude::*;

verus! {

/// What a stream carries.
#[derive(Clone, Copy, Debug, PartialEq, Eq, Structural)]
pub enum MediaKind {
    Video,
    Audio,
    Subtitle,
    Unknown,
}

/// What happens to the units of one input stream.
#[derive(Clone, Copy, Debug, PartialEq, Eq, Structural)]
pub enum StreamMode {
    /// Copied to the output with rescaled timestamps.
    PassThrough,
    /// Decoded, re-encoded, then written.
    Reencode,
    /// Released without being written.
    Drop,
}

/// One row of the mapping table, indexed by input stream.
#[derive(Clone, Copy, Debug, PartialEq, Eq, Structural)]
pub struct MapEntry {
    pub output_index: usize,
    pub mode: StreamMode,
}

/// `i` is the first video stream of `kinds`.
pub open spec fn is_first_video(kinds: Seq<MediaKind>, i: int) -> bool {
    &&& 0 <= i < kinds.len()
    &&& kinds[i] == MediaKind::Video
    &&& forall|j: int| 0 <= j < i ==> kinds[j] != MediaKind::Video
}

/// The stream that a transcode run re-encodes: the first video stream.
pub fn select_video_stream(kinds: &Vec<MediaKind>) -> (r: Option<usize>)
    ensures
        match r {
            Some(i) => is_first_video(kinds@, i as int),
            None => forall|j: int| 0 <= j < kinds@.len() ==> kinds@[j] != MediaKind::Video,
        },
{
    let mut i: usize = 0;
    while i < kinds.len()
        invariant
            i <= kinds@.len(),
            forall|j: int| 0 <= j < i ==> kinds@[j] != MediaKind::Video,
        decreases kinds@.len() - i,
    {
        if kinds[i] == MediaKind::Video {
            return Some(i);
        }
        i = i + 1;
    }
    None
}

/// The row for input stream `i`: same output index, re-encoded when it is
/// the selected stream, passed through otherwise.
pub open spec fn entry_for(i: int, reencode: Option<usize>) -> MapEntry {
    MapEntry {
        output_index: i as usize,
        mode: if reencode == Some(i as usize) { StreamMode::Reencode } else { StreamMode::PassThrough },
    }
}

/// The table for `n` input streams.
pub open spec fn mapping_table(n: nat, reencode: Option<usize>) -> Seq<MapEntry> {
    Seq::new(n, |i: int| entry_for(i, reencode))
}

/// Builds the mapping table for `n` input streams, with `reencode` naming the
/// stream to re-encode, if any (none in remux mode).
pub fn build_mapping(n: usize, reencode: Option<usize>) -> (r: Vec<MapEntry>)
    ensures
        r@ == mapping_table(n as nat, reencode),
{
    let mut r: Vec<MapEntry> = Vec::new();
    let mut i: usize = 0;
    while i < n
        invariant
            i <= n,
            r@ == mapping_table(i as nat, reencode),
        decreases n - i,
    {
        let mode = match reencode {
            Some(k) => if k == i { StreamMode::Reencode } else { StreamMode::PassThrough },
            None => StreamMode::PassThrough,
        };
        r.push(MapEntry { output_index: i, mode });
        i = i + 1;
        assert(r@ =~= mapping_table(i as nat, reencode));
    }
    r
}

/// The row of stream `index`, or `None` where the table has no such row.
pub open spec fn lookup(mapping: Seq<MapEntry>, index: i32) -> Option<MapEntry> {
    if 0 <= index < mapping.len() { Some(mapping[index as int]) } else { None }
}

/// Looks up the row of stream `index`; an index outside the table has none,
/// and its units are dropped.
pub fn find_entry(mapping: &Vec<MapEntry>, index: i32) -> (r: Option<MapEntry>)
    ensures
        r == lookup(mapping@, index),
{
    if 0 <= index && (index as usize) < mapping.len() {
        Some(mapping[index as usize])
    } else {
        None
    }
}

/// A table built from `n` input streams has exactly `n` rows, none of them
/// dropped, and no two rows share an output index.
pub proof fn lemma_mapping_complete_and_unique(n: nat, reencode: Option<usize>)
    requires
        n <= usize::MAX,
    ensures
        mapping_table(n, reencode).len() == n,
        forall|i: int| 0 <= i < n ==> mapping_table(n, reencode)[i].mode != StreamMode::Drop,
        forall|i: int, j: int| 0 <= i < n && 0 <= j < n && i != j
            ==> mapping_table(n, reencode)[i].output_index != mapping_table(n, reencode)[j].output_index,
{
}

} // verus!
