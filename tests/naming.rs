use screen_session::{
    artifact_file_name, cursor_id_for_hash, cursor_image_file_name, display_channel_id,
    segment_file_basename, SegmentArtifact,
};

#[test]
fn segment_basename_spells_the_index_in_decimal() {
    assert_eq!(segment_file_basename(0), "recording-0");
    assert_eq!(segment_file_basename(7), "recording-7");
    assert_eq!(segment_file_basename(10), "recording-10");
    assert_eq!(segment_file_basename(4096), "recording-4096");
}

#[test]
fn artifact_names_follow_the_naming_scheme() {
    assert_eq!(artifact_file_name(0, SegmentArtifact::Video), "recording-0.mp4");
    assert_eq!(artifact_file_name(2, SegmentArtifact::MicrophoneAudio), "recording-2-mic.m4a");
    assert_eq!(artifact_file_name(2, SegmentArtifact::SystemAudio), "recording-2-system.m4a");
    assert_eq!(
        artifact_file_name(3, SegmentArtifact::MouseMoves),
        "recording-3-mouse-moves.json"
    );
    assert_eq!(
        artifact_file_name(3, SegmentArtifact::MouseClicks),
        "recording-3-mouse-clicks.json"
    );
    assert_eq!(artifact_file_name(3, SegmentArtifact::CursorTable), "recording-3-cursors.json");
    assert_eq!(artifact_file_name(3, SegmentArtifact::CursorImages), "recording-3-cursors");
}

#[test]
fn neighbouring_segments_never_share_a_file_name() {
    let kinds = [
        SegmentArtifact::Video,
        SegmentArtifact::MicrophoneAudio,
        SegmentArtifact::SystemAudio,
        SegmentArtifact::MouseMoves,
        SegmentArtifact::MouseClicks,
        SegmentArtifact::CursorTable,
        SegmentArtifact::CursorImages,
    ];
    for k in [0usize, 1, 9, 10, 11, 99, 100] {
        for a in kinds {
            for b in kinds {
                assert_ne!(artifact_file_name(k, a), artifact_file_name(k + 1, b));
            }
        }
    }
    // "recording-1" followed by "1.mp4" is not how segment 11 is named.
    assert_ne!(artifact_file_name(1, SegmentArtifact::Video), "recording-11.mp4");
}

#[test]
fn display_channel_identifier_names_the_display() {
    assert_eq!(display_channel_id(1), "display-1");
    assert_eq!(display_channel_id(69733632), "display-69733632");
    assert_eq!(display_channel_id(u32::MAX), "display-4294967295");
}

#[test]
fn cursor_identifiers_are_sixteen_hex_digits() {
    assert_eq!(cursor_id_for_hash(0), "cursor_0000000000000000");
    assert_eq!(cursor_id_for_hash(0xabc), "cursor_0000000000000abc");
    assert_eq!(cursor_id_for_hash(u64::MAX), "cursor_ffffffffffffffff");
    assert_eq!(cursor_id_for_hash(0x0123456789abcdef), format!("cursor_{:016x}", 0x0123456789abcdefu64));
}

#[test]
fn cursor_image_file_is_a_png() {
    assert_eq!(cursor_image_file_name("cursor_00000000000000ff"), "cursor_00000000000000ff.png");
}
