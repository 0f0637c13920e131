//! Verified core of a local meeting recorder's audio pipeline.

pub mod capture;
pub mod commands;
pub mod meter;
pub mod opus_header;
pub mod session;
pub mod stream;
pub mod text;

pub use capture::{
    BYTES_PER_SAMPLE, BufferLayout, CaptureSource, RecordingMeta, check_input_config,
    check_loopback_config, chunk_layout, interleaved_layout, negotiated_sample_rate, planar_frames,
    start_guard, stop_guard,
};
pub use commands::{
    PERM_HINT_MIC, PERM_HINT_SCREEN, Platform, audio_output_components, describe_mic_error,
    describe_system_error, humanize_mic_error, humanize_system_error, open_mic_settings,
    open_permission_panel, open_screen_capture_settings, opener_command, opener_name,
};
pub use meter::Meter;
pub use opus_header::{build_opus_head, build_opus_tags};
pub use session::{StartEvent, StartStep, StopEvent, StopStep, next_start_step, next_stop_step};
pub use stream::{OggPacket, OpusOggStream, PacketEnd, stream_serial};
pub use text::{chars_of, contains_chars, decimal_string};
