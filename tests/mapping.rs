use avpipe::opts::{Frames, Remux, RunKind, SubCommand, Transcode, Transmux};
use avpipe::mapping::{build_mapping, find_entry, select_video_stream, MapEntry, MediaKind, StreamMode};

#[test]
fn selects_first_video_stream() {
    let kinds = vec![MediaKind::Audio, MediaKind::Video, MediaKind::Video];
    assert_eq!(select_video_stream(&kinds), Some(1));
    let none = vec![MediaKind::Audio, MediaKind::Subtitle, MediaKind::Unknown];
    assert_eq!(select_video_stream(&none), None);
    assert_eq!(select_video_stream(&Vec::new()), None);
}

#[test]
fn mapping_has_one_unique_row_per_stream() {
    let n = 7;
    let m = build_mapping(n, None);
    assert_eq!(m.len(), n);
    for (i, e) in m.iter().enumerate() {
        assert_eq!(*e, MapEntry { output_index: i, mode: StreamMode::PassThrough });
    }
    let mut outs: Vec<usize> = m.iter().map(|e| e.output_index).collect();
    outs.dedup();
    assert_eq!(outs.len(), n);
}

#[test]
fn mapping_marks_reencoded_stream() {
    let m = build_mapping(3, Some(1));
    assert_eq!(m[0].mode, StreamMode::PassThrough);
    assert_eq!(m[1].mode, StreamMode::Reencode);
    assert_eq!(m[2].mode, StreamMode::PassThrough);
    assert!(build_mapping(0, None).is_empty());
}

#[test]
fn lookup_outside_table_is_none() {
    let m = build_mapping(2, None);
    assert_eq!(find_entry(&m, 1), Some(m[1]));
    assert_eq!(find_entry(&m, 2), None);
    assert_eq!(find_entry(&m, -1), None);
}

#[test]
fn subcommands_collapse_passthrough_runs() {
    let s = |v: &str| v.to_string();
    assert_eq!(SubCommand::Remux(Remux { input: s("a"), output: s("b") }).kind(), RunKind::PassThrough);
    assert_eq!(SubCommand::Transmux(Transmux { input: s("a"), output: s("b") }).kind(), RunKind::PassThrough);
    assert_eq!(SubCommand::Transcode(Transcode { input: s("a"), output: s("b") }).kind(), RunKind::Reencode);
    assert_eq!(SubCommand::Formats.kind(), RunKind::Listing);
    let f = Frames { input: s("a"), number: Some(4) };
    assert_eq!(f.wanted(), 4);
    assert_eq!(SubCommand::Frames(f).kind(), RunKind::FrameDump);
    assert_eq!(Frames { input: s("a"), number: None }.wanted(), u64::MAX);
}
