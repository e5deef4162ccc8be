//! Multi-channel recording session coordination.
//!
//! The library drives a set of independently running capture channels
//! through one shared lifecycle, names the files each channel produces,
//! and prepares the raw bytes that capture sources hand to encoders.
mod error;
mod channel;
mod coordinator;
mod naming;
mod media;
mod input;
mod permissions;
mod window;
mod encoder;
mod devices;

pub use error::{error_message, RecordingError, RecordingResult};
pub use channel::{channel_type_name, ChannelType, RecordingChannel};
pub use coordinator::{
    elapsed_ms, failure_of, first_failure, first_failure_of, ids_of, ready_for, reports_channels,
    resume_failed_at, start_failed_at, ChannelOutput,
    RecordingConfig, RecordingCoordinator, RecordingOutput, RecordingState,
};
pub use naming::{
    artifact_file_name, artifact_name, artifact_tail, cursor_id_for_hash, cursor_image_file_name,
    decimal, decimal_text, digit_char, display_channel_id, hex_digits, is_decimal_digit,
    lemma_segment_names_distinct, segment_basename, segment_file_basename, SegmentArtifact,
};
pub use media::{
    audio_payload, audio_payload_of, encodable_frame_len, encodable_len, interleave_stereo,
    interleaved, pack_bgra_rows, packed_rows,
};
pub use input::{
    left_in, modifier_list, modifier_names, right_in, ButtonEdge, ButtonTracker, CursorRegistry,
    MouseButton,
};
pub use permissions::{has_screen_recording_permission, request_screen_recording_permission};
pub use window::{editor_url, editor_window_url, is_unreserved, percent_encoded, upper_hex};
pub use encoder::{
    audio_encoder_args, audio_encoder_arguments, texts, video_encoder_args,
    video_encoder_arguments,
};
pub use devices::{
    describe_input_devices, device_entry, display_name, display_title, find_device_by_name,
    AudioDeviceInfo,
};
