use webrtc_apm::{
    AudioProcessor, EngineOp, EngineState, StreamConfig, WebrtcApmAudioProcessingConfigBuilder,
    WebrtcApmError,
};

fn configured_engine() -> AudioProcessor {
    let mut engine = AudioProcessor::new();
    assert_eq!(engine.initialize(), Ok(()));
    assert_eq!(engine.complete(0), Ok(()));
    let cfg = WebrtcApmAudioProcessingConfigBuilder::new().build();
    assert_eq!(engine.apply_config(&cfg), Ok(()));
    assert_eq!(engine.complete(0), Ok(()));
    engine
}

#[test]
fn fresh_engine_refuses_config_and_frames() {
    let mut engine = AudioProcessor::new();
    assert_eq!(engine.state(), EngineState::Created);
    let cfg = WebrtcApmAudioProcessingConfigBuilder::new().build();
    assert_eq!(engine.apply_config(&cfg), Err(WebrtcApmError::BadParameterError));
    let d = StreamConfig::new(16000, 1).unwrap();
    let src = vec![0i16; 160];
    let dest = vec![0i16; 160];
    assert_eq!(
        engine.process_stream_int16(&d, &d, &src, &dest),
        Err(WebrtcApmError::BadParameterError)
    );
    assert_eq!(engine.pending(), None);
    assert_eq!(engine.state(), EngineState::Created);
}

#[test]
fn processing_before_apply_config_is_refused() {
    let mut engine = AudioProcessor::new();
    engine.initialize().unwrap();
    engine.complete(0).unwrap();
    assert_eq!(engine.state(), EngineState::Initialized);
    let d = StreamConfig::new(16000, 1).unwrap();
    let frame = vec![0i16; 160];
    assert_eq!(
        engine.process_stream_int16(&d, &d, &frame, &frame),
        Err(WebrtcApmError::BadParameterError)
    );
    assert_eq!(
        engine.process_reverse_stream_int16(&d, &d, &frame, &frame),
        Err(WebrtcApmError::BadParameterError)
    );
    assert_eq!(engine.set_stream_delay_ms(10), Err(WebrtcApmError::BadParameterError));
}

#[test]
fn reverse_then_forward_at_sixteen_kilohertz() {
    let mut engine = configured_engine();
    let d = StreamConfig::new(16000, 1).unwrap();
    let reference = vec![0i16; 160];
    let mut out = vec![0i16; 160];
    assert_eq!(engine.process_reverse_stream_int16(&d, &d, &reference, &out), Ok(()));
    assert_eq!(engine.pending(), Some(EngineOp::ProcessReverse));
    assert_eq!(engine.complete(0), Ok(()));
    assert_eq!(engine.state(), EngineState::Processing);
    assert_eq!(out.len(), 160);

    let mic: Vec<i16> = (0..160).map(|i| if i % 16 < 8 { 1000 } else { -1000 }).collect();
    assert_eq!(engine.set_stream_delay_ms(20), Ok(()));
    assert_eq!(engine.complete(0), Ok(()));
    assert_eq!(engine.process_stream_int16(&d, &d, &mic, &out), Ok(()));
    assert_eq!(engine.complete(0), Ok(()));
    out[0] = 1;
    assert_eq!(out.len(), 160);
    assert_eq!(engine.state(), EngineState::Processing);
}

#[test]
fn silent_frame_is_accepted_with_same_length() {
    for (rate, channels) in [(8000, 1usize), (16000, 2), (32000, 1), (48000, 2)] {
        let mut engine = configured_engine();
        let d = StreamConfig::new(rate, channels).unwrap();
        let src = vec![0i16; d.frame_samples()];
        let dest = vec![0i16; src.len()];
        assert_eq!(engine.process_stream_int16(&d, &d, &src, &dest), Ok(()));
        assert_eq!(engine.complete(0), Ok(()));
        assert_eq!(dest.len(), src.len());
    }
}

#[test]
fn channel_mismatch_is_bad_parameter() {
    let mut engine = configured_engine();
    let stereo = StreamConfig::new(16000, 2).unwrap();
    let mono_frame = vec![0i16; 160];
    assert_eq!(
        engine.process_stream_int16(&stereo, &stereo, &mono_frame, &mono_frame),
        Err(WebrtcApmError::BadParameterError)
    );
    let mono = StreamConfig::new(16000, 1).unwrap();
    let stereo_frame = vec![0i16; 320];
    assert_eq!(
        engine.process_stream_int16(&mono, &stereo, &mono_frame, &mono_frame),
        Err(WebrtcApmError::BadParameterError)
    );
    assert_eq!(engine.process_stream_int16(&mono, &stereo, &mono_frame, &stereo_frame), Ok(()));
}

#[test]
fn released_descriptor_is_null_pointer() {
    let mut engine = configured_engine();
    let mut d = StreamConfig::new(16000, 1).unwrap();
    d.release();
    let frame = vec![0i16; 160];
    assert_eq!(
        engine.process_reverse_stream_int16(&d, &d, &frame, &frame),
        Err(WebrtcApmError::NullPointerError)
    );
}

#[test]
fn negative_delay_is_bad_parameter() {
    let mut engine = configured_engine();
    assert_eq!(engine.set_stream_delay_ms(-1), Err(WebrtcApmError::BadParameterError));
    assert_eq!(engine.set_stream_delay_ms(0), Ok(()));
    assert_eq!(engine.pending(), Some(EngineOp::SetStreamDelay));
}

#[test]
fn out_of_range_gain_settings_are_refused() {
    let mut engine = AudioProcessor::new();
    engine.initialize().unwrap();
    engine.complete(0).unwrap();
    let loud = WebrtcApmAudioProcessingConfigBuilder::new().agc_target_level_dbfs(3).build();
    assert_eq!(engine.apply_config(&loud), Err(WebrtcApmError::BadParameterError));
    let negative = WebrtcApmAudioProcessingConfigBuilder::new().agc_compression_gain_db(-1).build();
    assert_eq!(engine.apply_config(&negative), Err(WebrtcApmError::BadParameterError));
    let full_scale = WebrtcApmAudioProcessingConfigBuilder::new().agc_target_level_dbfs(0).build();
    assert_eq!(engine.apply_config(&full_scale), Ok(()));
}

#[test]
fn reconfiguring_while_processing_needs_reinitialization() {
    let mut engine = configured_engine();
    let d = StreamConfig::new(16000, 1).unwrap();
    let frame = vec![0i16; 160];
    engine.process_stream_int16(&d, &d, &frame, &frame).unwrap();
    engine.complete(0).unwrap();
    let cfg = WebrtcApmAudioProcessingConfigBuilder::new().echo_cancellation(false).build();
    assert_eq!(engine.apply_config(&cfg), Err(WebrtcApmError::BadParameterError));
    engine.initialize().unwrap();
    engine.complete(0).unwrap();
    assert_eq!(engine.state(), EngineState::Initialized);
    assert_eq!(engine.apply_config(&cfg), Ok(()));
}

#[test]
fn engine_failure_keeps_the_state() {
    let mut engine = AudioProcessor::new();
    engine.initialize().unwrap();
    assert_eq!(engine.complete(-1), Err(WebrtcApmError::UnspecifiedError));
    assert_eq!(engine.state(), EngineState::Created);
    assert_eq!(engine.pending(), None);
    engine.initialize().unwrap();
    assert_eq!(engine.complete(-99), Err(WebrtcApmError::UnspecifiedError));
    engine.initialize().unwrap();
    assert_eq!(engine.complete(0), Ok(()));
    let cfg = WebrtcApmAudioProcessingConfigBuilder::new().build();
    engine.apply_config(&cfg).unwrap();
    assert_eq!(engine.complete(-7), Err(WebrtcApmError::BadSampleRateError));
    assert_eq!(engine.state(), EngineState::Initialized);
}

#[test]
fn second_request_while_pending_is_refused() {
    let mut engine = AudioProcessor::new();
    assert_eq!(engine.initialize(), Ok(()));
    assert_eq!(engine.initialize(), Err(WebrtcApmError::BadParameterError));
    assert_eq!(engine.pending(), Some(EngineOp::Initialize));
}

#[test]
fn complete_without_request_is_refused() {
    let mut engine = AudioProcessor::new();
    assert_eq!(engine.complete(0), Err(WebrtcApmError::BadParameterError));
    assert_eq!(engine.state(), EngineState::Created);
}

#[test]
fn engine_teardown_is_idempotent() {
    let mut engine = configured_engine();
    assert!(engine.destroy());
    assert!(!engine.destroy());
    assert_eq!(engine.state(), EngineState::Destroyed);
    assert_eq!(engine.initialize(), Err(WebrtcApmError::NullPointerError));
    assert_eq!(engine.set_stream_delay_ms(5), Err(WebrtcApmError::NullPointerError));
    assert_eq!(engine.complete(0), Err(WebrtcApmError::NullPointerError));
}
