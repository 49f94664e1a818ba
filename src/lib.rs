//! Verified boundary of a real-time audio processing engine (noise suppression,
//! echo cancellation, gain control): outcome signals, stream descriptors, the
//! processing configuration and its builder, and the engine's lifecycle, which
//! decides when a native call may be made and what its outcome code means.

mod audio_processor;
mod config;
mod error;

pub use audio_processor::{
    accept_apply_config, accept_initialize, accept_process, accept_set_delay,
    accepted_frame_keeps_length, builder_defaults_round_trip, completion_result, completion_state,
    configurable, default_settings, gate, pending_after, release_owed, settings_in_range,
    state_after_success,
    streaming, teardown_is_idempotent, work_out_of_order_is_refused, AudioProcessor, EngineOp,
    EngineState, ProcessingSettings, WebrtcApmAudioProcessingConfig,
    WebrtcApmAudioProcessingConfigBuilder, WebrtcApmNoiseSuppressionLevel,
};
pub use config::{
    frame_len, supported_rate, supported_streams_are_valid, valid_stream, StreamConfig,
};
pub use error::{code_mapping_is_total, error_of_code, success_only_from_zero, WebrtcApmError};
