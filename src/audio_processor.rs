use vstd::prelude::*;

use crate::config::StreamConfig;
use crate::error::{error_of_code, WebrtcApmError};

verus! {

/// How strongly the noise suppressor acts.
#[derive(Debug, Clone, Copy, PartialEq, Eq, Structural)]
pub enum WebrtcApmNoiseSuppressionLevel {
    Low,
    Moderate,
    High,
    VeryHigh,
}

/// The flat record of processing settings that the engine is configured with.
#[derive(Debug, Clone, Copy, PartialEq, Eq, Structural)]
pub struct ProcessingSettings {
    pub enable_noise_suppression: bool,
    pub ns_level: WebrtcApmNoiseSuppressionLevel,
    pub enable_echo_cancellation: bool,
    pub echo_mobile_mode: bool,
    pub enable_high_pass_filter: bool,
    pub enable_analog_gain_control: bool,
    pub agc_target_level_dbfs: i32,
    pub agc_compression_gain_db: i32,
    pub agc_enable_limiter: bool,
}

/// The documented defaults: noise suppression on at `Moderate`, echo
/// cancellation on, mobile mode off, high-pass filter on, analog gain control
/// off, target level -3 dBFS, compression gain 9 dB, limiter on.
pub open spec fn default_settings() -> ProcessingSettings {
    ProcessingSettings {
        enable_noise_suppression: true,
        ns_level: WebrtcApmNoiseSuppressionLevel::Moderate,
        enable_echo_cancellation: true,
        echo_mobile_mode: false,
        enable_high_pass_filter: true,
        enable_analog_gain_control: false,
        agc_target_level_dbfs: -3i32,
        agc_compression_gain_db: 9i32,
        agc_enable_limiter: true,
    }
}

/// Settings within the ranges that the gain controller accepts: a target level
/// at or below full scale and a compression gain that is not negative.
pub open spec fn settings_in_range(s: ProcessingSettings) -> bool {
    s.agc_target_level_dbfs <= 0 && s.agc_compression_gain_db >= 0
}

/// An immutable processing configuration, made by the builder and applied to
/// any number of engines.
#[derive(Debug, Clone, Copy)]
pub struct WebrtcApmAudioProcessingConfig {
    config: ProcessingSettings,
}

impl View for WebrtcApmAudioProcessingConfig {
    type V = ProcessingSettings;

    closed spec fn view(&self) -> ProcessingSettings {
        self.config
    }
}

impl Default for WebrtcApmAudioProcessingConfig {
    fn default() -> (r: WebrtcApmAudioProcessingConfig)
        ensures
            r@ == default_settings(),
    {
        let config = ProcessingSettings {
            enable_noise_suppression: true,
            ns_level: WebrtcApmNoiseSuppressionLevel::Moderate,
            enable_echo_cancellation: true,
            echo_mobile_mode: false,
            enable_high_pass_filter: true,
            enable_analog_gain_control: false,
            agc_target_level_dbfs: -3,
            agc_compression_gain_db: 9,
            agc_enable_limiter: true,
        };
        WebrtcApmAudioProcessingConfig { config }
    }
}

impl WebrtcApmAudioProcessingConfig {
    /// A copy of the settings record, in the layout the engine takes.
    pub fn settings(&self) -> (r: ProcessingSettings)
        ensures
            r == self@,
    {
        self.config
    }
}

/// Starts from the defaults and overrides single fields, one call each.
#[derive(Debug, Clone, Copy)]
pub struct WebrtcApmAudioProcessingConfigBuilder {
    cfg: ProcessingSettings,
}

impl View for WebrtcApmAudioProcessingConfigBuilder {
    type V = ProcessingSettings;

    closed spec fn view(&self) -> ProcessingSettings {
        self.cfg
    }
}

impl WebrtcApmAudioProcessingConfigBuilder {
    pub fn new() -> (r: WebrtcApmAudioProcessingConfigBuilder)
        ensures
            r@ == default_settings(),
    {
        WebrtcApmAudioProcessingConfigBuilder {
            cfg: WebrtcApmAudioProcessingConfig::default().config,
        }
    }

    /// Turns noise suppression on or off.
    pub fn noise_suppression(
        self,
        enable: bool,
    ) -> (r: WebrtcApmAudioProcessingConfigBuilder)
        ensures
            r@ == (ProcessingSettings { enable_noise_suppression: enable, ..self@ }),
    {
        let mut b = self;
        b.cfg.enable_noise_suppression = enable;
        b
    }

    /// Sets how strongly noise is suppressed.
    pub fn noise_suppression_level(
        self,
        level: WebrtcApmNoiseSuppressionLevel,
    ) -> (r: WebrtcApmAudioProcessingConfigBuilder)
        ensures
            r@ == (ProcessingSettings { ns_level: level, ..self@ }),
    {
        let mut b = self;
        b.cfg.ns_level = level;
        b
    }

    /// Turns echo cancellation on or off.
    pub fn echo_cancellation(
        self,
        enable: bool,
    ) -> (r: WebrtcApmAudioProcessingConfigBuilder)
        ensures
            r@ == (ProcessingSettings { enable_echo_cancellation: enable, ..self@ }),
    {
        let mut b = self;
        b.cfg.enable_echo_cancellation = enable;
        b
    }

    /// Selects the mobile variant of the echo canceller.
    pub fn echo_mobile_mode(
        self,
        enable: bool,
    ) -> (r: WebrtcApmAudioProcessingConfigBuilder)
        ensures
            r@ == (ProcessingSettings { echo_mobile_mode: enable, ..self@ }),
    {
        let mut b = self;
        b.cfg.echo_mobile_mode = enable;
        b
    }

    /// Turns the high-pass filter on or off.
    pub fn high_pass_filter(
        self,
        enable: bool,
    ) -> (r: WebrtcApmAudioProcessingConfigBuilder)
        ensures
            r@ == (ProcessingSettings { enable_high_pass_filter: enable, ..self@ }),
    {
        let mut b = self;
        b.cfg.enable_high_pass_filter = enable;
        b
    }

    /// Turns analog gain control on or off.
    pub fn analog_gain_control(
        self,
        enable: bool,
    ) -> (r: WebrtcApmAudioProcessingConfigBuilder)
        ensures
            r@ == (ProcessingSettings { enable_analog_gain_control: enable, ..self@ }),
    {
        let mut b = self;
        b.cfg.enable_analog_gain_control = enable;
        b
    }

    /// Sets the gain controller's target level, in dB below full scale.
    pub fn agc_target_level_dbfs(
        self,
        level_dbfs: i32,
    ) -> (r: WebrtcApmAudioProcessingConfigBuilder)
        ensures
            r@ == (ProcessingSettings { agc_target_level_dbfs: level_dbfs, ..self@ }),
    {
        let mut b = self;
        b.cfg.agc_target_level_dbfs = level_dbfs;
        b
    }

    /// Sets the makeup gain applied before limiting, in dB.
    pub fn agc_compression_gain_db(
        self,
        gain_db: i32,
    ) -> (r: WebrtcApmAudioProcessingConfigBuilder)
        ensures
            r@ == (ProcessingSettings { agc_compression_gain_db: gain_db, ..self@ }),
    {
        let mut b = self;
        b.cfg.agc_compression_gain_db = gain_db;
        b
    }

    /// Turns the output limiter on or off.
    pub fn agc_limiter(
        self,
        enable: bool,
    ) -> (r: WebrtcApmAudioProcessingConfigBuilder)
        ensures
            r@ == (ProcessingSettings { agc_enable_limiter: enable, ..self@ }),
    {
        let mut b = self;
        b.cfg.agc_enable_limiter = enable;
        b
    }

    /// Finishes the configuration; it cannot fail.
    pub fn build(self) -> (r: WebrtcApmAudioProcessingConfig)
        ensures
            r@ == self@,
    {
        WebrtcApmAudioProcessingConfig { config: self.cfg }
    }
}

/// Where an engine stands in its lifecycle.
#[derive(Debug, Clone, Copy, PartialEq, Eq, Structural)]
pub enum EngineState {
    Created,
    Initialized,
    Configured,
    Processing,
    Destroyed,
}

/// An engine operation that has been accepted and awaits the native outcome code.
#[derive(Debug, Clone, Copy, PartialEq, Eq, Structural)]
pub enum EngineOp {
    Initialize,
    ApplyConfig,
    ProcessForward,
    ProcessReverse,
    SetStreamDelay,
}

/// The common gate of every request: a destroyed engine has no handle, and an
/// engine that is busy with another operation, or not yet in a state where the
/// operation is legal, refuses it.
pub open spec fn gate(
    state: EngineState,
    pending: Option<EngineOp>,
    ready: bool,
) -> Result<(), WebrtcApmError> {
    if state == EngineState::Destroyed {
        Err(WebrtcApmError::NullPointerError)
    } else if pending.is_some() || !ready {
        Err(WebrtcApmError::BadParameterError)
    } else {
        Ok(())
    }
}

/// States in which a configuration may be applied: after initialization and
/// before any frame has been processed.
pub open spec fn configurable(state: EngineState) -> bool {
    state == EngineState::Initialized || state == EngineState::Configured
}

/// States in which frames may be processed and the delay set.
pub open spec fn streaming(state: EngineState) -> bool {
    state == EngineState::Configured || state == EngineState::Processing
}

/// Whether initialization is accepted: in every state but `Destroyed`, when idle.
pub open spec fn accept_initialize(
    state: EngineState,
    pending: Option<EngineOp>,
) -> Result<(), WebrtcApmError> {
    gate(state, pending, true)
}

/// Whether a configuration is accepted: on an idle engine that is initialized
/// and has processed no frame yet, with the gain settings in range.
pub open spec fn accept_apply_config(
    state: EngineState,
    pending: Option<EngineOp>,
    settings: ProcessingSettings,
) -> Result<(), WebrtcApmError> {
    if gate(state, pending, configurable(state)) is Err {
        gate(state, pending, configurable(state))
    } else if !settings_in_range(settings) {
        Err(WebrtcApmError::BadParameterError)
    } else {
        Ok(())
    }
}

/// Whether a frame request is accepted: both descriptors still live, and each
/// buffer exactly one frame of its descriptor.
pub open spec fn accept_process(
    state: EngineState,
    pending: Option<EngineOp>,
    input_live: bool,
    output_live: bool,
    input_samples: int,
    output_samples: int,
    src_len: int,
    dest_len: int,
) -> Result<(), WebrtcApmError> {
    if state == EngineState::Destroyed || !input_live || !output_live {
        Err(WebrtcApmError::NullPointerError)
    } else if gate(state, pending, streaming(state)) is Err {
        gate(state, pending, streaming(state))
    } else if src_len != input_samples || dest_len != output_samples {
        Err(WebrtcApmError::BadParameterError)
    } else {
        Ok(())
    }
}

/// Whether a delay is accepted: on an idle configured engine, and not negative.
pub open spec fn accept_set_delay(
    state: EngineState,
    pending: Option<EngineOp>,
    delay_ms: i32,
) -> Result<(), WebrtcApmError> {
    if gate(state, pending, streaming(state)) is Err {
        gate(state, pending, streaming(state))
    } else if delay_ms < 0 {
        Err(WebrtcApmError::BadParameterError)
    } else {
        Ok(())
    }
}

/// What is pending after a request: the operation itself when it was accepted,
/// what was pending before otherwise.
pub open spec fn pending_after(
    verdict: Result<(), WebrtcApmError>,
    op: EngineOp,
    before: Option<EngineOp>,
) -> Option<EngineOp> {
    if verdict is Ok {
        Some(op)
    } else {
        before
    }
}

/// The state that an operation leads to when the engine reports success.
pub open spec fn state_after_success(op: EngineOp) -> EngineState {
    match op {
        EngineOp::Initialize => EngineState::Initialized,
        EngineOp::ApplyConfig => EngineState::Configured,
        _ => EngineState::Processing,
    }
}

/// What `complete` reports for a native outcome code.
pub open spec fn completion_result(
    state: EngineState,
    pending: Option<EngineOp>,
    code: i32,
) -> Result<(), WebrtcApmError> {
    if pending is None {
        if state == EngineState::Destroyed {
            Err(WebrtcApmError::NullPointerError)
        } else {
            Err(WebrtcApmError::BadParameterError)
        }
    } else if error_of_code(code) == WebrtcApmError::NoError {
        Ok(())
    } else {
        Err(error_of_code(code))
    }
}

/// The state after `complete`: the target of the pending operation on success,
/// the state before it otherwise.
pub open spec fn completion_state(
    state: EngineState,
    pending: Option<EngineOp>,
    code: i32,
) -> EngineState {
    match pending {
        Some(op) => if code == 0 {
            state_after_success(op)
        } else {
            state
        },
        None => state,
    }
}

/// Whether tearing an engine down in this state still owes the release of its
/// native resources.
pub open spec fn release_owed(state: EngineState) -> bool {
    state != EngineState::Destroyed
}

/// The lifecycle of one processing engine. Each operation is a request, which
/// checks the order of calls and the shape of the buffers and, when accepted,
/// leaves the operation pending; the caller then runs the native operation and
/// hands its outcome code to `complete`.
#[derive(Debug)]
pub struct AudioProcessor {
    state: EngineState,
    pending: Option<EngineOp>,
}

impl AudioProcessor {
    /// Where the engine stands in its lifecycle.
    pub closed spec fn spec_state(&self) -> EngineState {
        self.state
    }

    /// The accepted operation whose native outcome is still awaited, if any.
    pub closed spec fn spec_pending(&self) -> Option<EngineOp> {
        self.pending
    }

    /// A destroyed engine has nothing pending.
    pub open spec fn wf(&self) -> bool {
        self.spec_state() == EngineState::Destroyed ==> self.spec_pending() is None
    }

    /// A freshly created engine: not initialized, nothing pending.
    pub fn new() -> (r: AudioProcessor)
        ensures
            r.spec_state() == EngineState::Created,
            r.spec_pending() is None,
            r.wf(),
    {
        AudioProcessor { state: EngineState::Created, pending: None }
    }

    pub fn state(&self) -> (r: EngineState)
        ensures
            r == self.spec_state(),
    {
        self.state
    }

    pub fn pending(&self) -> (r: Option<EngineOp>)
        ensures
            r == self.spec_pending(),
    {
        self.pending
    }

    fn enter(&mut self, op: EngineOp, verdict: Result<(), WebrtcApmError>) -> (r: Result<
        (),
        WebrtcApmError,
    >)
        requires
            old(self).wf(),
            verdict is Ok ==> old(self).spec_state() != EngineState::Destroyed,
        ensures
            r == verdict,
            final(self).spec_state() == old(self).spec_state(),
            final(self).spec_pending() == pending_after(verdict, op, old(self).spec_pending()),
            final(self).wf(),
    {
        if verdict.is_ok() {
            self.pending = Some(op);
        }
        verdict
    }

    /// Requests initialization; legal in every state but `Destroyed`, and again
    /// later to reset the engine.
    pub fn initialize(&mut self) -> (r: Result<(), WebrtcApmError>)
        requires
            old(self).wf(),
        ensures
            r == accept_initialize(old(self).spec_state(), old(self).spec_pending()),
            final(self).spec_state() == old(self).spec_state(),
            final(self).spec_pending() == pending_after(
                r,
                EngineOp::Initialize,
                old(self).spec_pending(),
            ),
            final(self).wf(),
    {
        let verdict = if self.state == EngineState::Destroyed {
            Err(WebrtcApmError::NullPointerError)
        } else if self.pending.is_some() {
            Err(WebrtcApmError::BadParameterError)
        } else {
            Ok(())
        };
        self.enter(EngineOp::Initialize, verdict)
    }
    /// Requests that a configuration be applied; legal once initialized and
    /// before the first frame, with the gain settings in range.
    pub fn apply_config(&mut self, config: &WebrtcApmAudioProcessingConfig) -> (r: Result<
        (),
        WebrtcApmError,
    >)
        requires
            old(self).wf(),
        ensures
            r == accept_apply_config(old(self).spec_state(), old(self).spec_pending(), config@),
            final(self).spec_state() == old(self).spec_state(),
            final(self).spec_pending() == pending_after(
                r,
                EngineOp::ApplyConfig,
                old(self).spec_pending(),
            ),
            final(self).wf(),
    {
        let ready = self.state == EngineState::Initialized || self.state == EngineState::Configured;
        let verdict = if self.state == EngineState::Destroyed {
            Err(WebrtcApmError::NullPointerError)
        } else if self.pending.is_some() || !ready {
            Err(WebrtcApmError::BadParameterError)
        } else if config.config.agc_target_level_dbfs > 0
            || config.config.agc_compression_gain_db < 0 {
            Err(WebrtcApmError::BadParameterError)
        } else {
            Ok(())
        };
        self.enter(EngineOp::ApplyConfig, verdict)
    }

    fn frame_verdict(
        &self,
        input_config: &StreamConfig,
        output_config: &StreamConfig,
        src_len: usize,
        dest_len: usize,
    ) -> (r: Result<(), WebrtcApmError>)
        ensures
            r == accept_process(
                self.spec_state(),
                self.spec_pending(),
                !input_config.spec_released(),
                !output_config.spec_released(),
                input_config.spec_frame_samples(),
                output_config.spec_frame_samples(),
                src_len as int,
                dest_len as int,
            ),
    {
        let ready = self.state == EngineState::Configured || self.state == EngineState::Processing;
        let handles_live = input_config.is_live() && output_config.is_live();
        if self.state == EngineState::Destroyed || !handles_live {
            Err(WebrtcApmError::NullPointerError)
        } else if self.pending.is_some() || !ready {
            Err(WebrtcApmError::BadParameterError)
        } else if src_len != input_config.frame_samples()
            || dest_len != output_config.frame_samples() {
            Err(WebrtcApmError::BadParameterError)
        } else {
            Ok(())
        }
    }

    /// Requests processing of one near-end (microphone) frame: `src` must hold
    /// exactly one frame of `input_config` and `dest` one frame of `output_config`.
    pub fn process_stream_int16(
        &mut self,
        input_config: &StreamConfig,
        output_config: &StreamConfig,
        src: &[i16],
        dest: &[i16],
    ) -> (r: Result<(), WebrtcApmError>)
        requires
            old(self).wf(),
        ensures
            r == accept_process(
                old(self).spec_state(),
                old(self).spec_pending(),
                !input_config.spec_released(),
                !output_config.spec_released(),
                input_config.spec_frame_samples(),
                output_config.spec_frame_samples(),
                src@.len() as int,
                dest@.len() as int,
            ),
            final(self).spec_state() == old(self).spec_state(),
            final(self).spec_pending() == pending_after(
                r,
                EngineOp::ProcessForward,
                old(self).spec_pending(),
            ),
            final(self).wf(),
    {
        let verdict = self.frame_verdict(input_config, output_config, src.len(), dest.len());
        self.enter(EngineOp::ProcessForward, verdict)
    }

    /// Requests processing of one reverse (loudspeaker reference) frame, under
    /// the same shape rules as the near-end frame.
    pub fn process_reverse_stream_int16(
        &mut self,
        input_config: &StreamConfig,
        output_config: &StreamConfig,
        src: &[i16],
        dest: &[i16],
    ) -> (r: Result<(), WebrtcApmError>)
        requires
            old(self).wf(),
        ensures
            r == accept_process(
                old(self).spec_state(),
                old(self).spec_pending(),
                !input_config.spec_released(),
                !output_config.spec_released(),
                input_config.spec_frame_samples(),
                output_config.spec_frame_samples(),
                src@.len() as int,
                dest@.len() as int,
            ),
            final(self).spec_state() == old(self).spec_state(),
            final(self).spec_pending() == pending_after(
                r,
                EngineOp::ProcessReverse,
                old(self).spec_pending(),
            ),
            final(self).wf(),
    {
        let verdict = self.frame_verdict(input_config, output_config, src.len(), dest.len());
        self.enter(EngineOp::ProcessReverse, verdict)
    }

    /// Requests that the capture-to-render delay be set; a negative delay is refused.
    pub fn set_stream_delay_ms(&mut self, delay_ms: i32) -> (r: Result<(), WebrtcApmError>)
        requires
            old(self).wf(),
        ensures
            r == accept_set_delay(old(self).spec_state(), old(self).spec_pending(), delay_ms),
            final(self).spec_state() == old(self).spec_state(),
            final(self).spec_pending() == pending_after(
                r,
                EngineOp::SetStreamDelay,
                old(self).spec_pending(),
            ),
            final(self).wf(),
    {
        let ready = self.state == EngineState::Configured || self.state == EngineState::Processing;
        let verdict = if self.state == EngineState::Destroyed {
            Err(WebrtcApmError::NullPointerError)
        } else if self.pending.is_some() || !ready {
            Err(WebrtcApmError::BadParameterError)
        } else if delay_ms < 0 {
            Err(WebrtcApmError::BadParameterError)
        } else {
            Ok(())
        };
        self.enter(EngineOp::SetStreamDelay, verdict)
    }

    /// Takes the native outcome code of the pending operation: on `NoError`
    /// the engine moves on, on any other signal it stays where it was. Without a
    /// pending operation there is nothing to complete.
    pub fn complete(&mut self, outcome: i32) -> (r: Result<(), WebrtcApmError>)
        requires
            old(self).wf(),
        ensures
            r == completion_result(old(self).spec_state(), old(self).spec_pending(), outcome),
            final(self).spec_state() == completion_state(
                old(self).spec_state(),
                old(self).spec_pending(),
                outcome,
            ),
            final(self).spec_pending() is None,
            final(self).wf(),
    {
        match self.pending {
            None => {
                if self.state == EngineState::Destroyed {
                    Err(WebrtcApmError::NullPointerError)
                } else {
                    Err(WebrtcApmError::BadParameterError)
                }
            },
            Some(op) => {
                self.pending = None;
                let signal = WebrtcApmError::from_code(outcome);
                if signal.is_ok() {
                    self.state = match op {
                        EngineOp::Initialize => EngineState::Initialized,
                        EngineOp::ApplyConfig => EngineState::Configured,
                        _ => EngineState::Processing,
                    };
                }
                signal.into_result()
            },
        }
    }

    /// Tears the engine down. Returns whether its native resources are still to
    /// be released: true on the first call, false on every later one.
    pub fn destroy(&mut self) -> (r: bool)
        ensures
            r == release_owed(old(self).spec_state()),
            final(self).spec_state() == EngineState::Destroyed,
            final(self).spec_pending() is None,
            final(self).wf(),
    {
        let owed = self.state != EngineState::Destroyed;
        self.state = EngineState::Destroyed;
        self.pending = None;
        owed
    }
}

/// The builder starts from the documented defaults, and `build` keeps what the
/// builder holds, so building straight away gives exactly those defaults.
pub proof fn builder_defaults_round_trip()
    ensures
        default_settings().enable_noise_suppression == true,
        default_settings().ns_level == WebrtcApmNoiseSuppressionLevel::Moderate,
        default_settings().enable_echo_cancellation == true,
        default_settings().echo_mobile_mode == false,
        default_settings().enable_high_pass_filter == true,
        default_settings().enable_analog_gain_control == false,
        default_settings().agc_target_level_dbfs == -3,
        default_settings().agc_compression_gain_db == 9,
        default_settings().agc_enable_limiter == true,
        settings_in_range(default_settings()),
{
}

/// An engine that was never initialized refuses a configuration and a frame,
/// and one that was initialized but never configured refuses frames and the
/// delay, each with `BadParameterError` rather than reaching the native engine.
pub proof fn work_out_of_order_is_refused(
    settings: ProcessingSettings,
    input_samples: int,
    output_samples: int,
    src_len: int,
    dest_len: int,
    delay_ms: i32,
)
    ensures
        accept_apply_config(EngineState::Created, None, settings) == Err::<(), WebrtcApmError>(
            WebrtcApmError::BadParameterError,
        ),
        accept_process(
            EngineState::Created,
            None,
            true,
            true,
            input_samples,
            output_samples,
            src_len,
            dest_len,
        ) == Err::<(), WebrtcApmError>(WebrtcApmError::BadParameterError),
        accept_process(
            EngineState::Initialized,
            None,
            true,
            true,
            input_samples,
            output_samples,
            src_len,
            dest_len,
        ) == Err::<(), WebrtcApmError>(WebrtcApmError::BadParameterError),
        accept_set_delay(EngineState::Created, None, delay_ms) == Err::<(), WebrtcApmError>(
            WebrtcApmError::BadParameterError,
        ),
        accept_set_delay(EngineState::Initialized, None, delay_ms) == Err::<(), WebrtcApmError>(
            WebrtcApmError::BadParameterError,
        ),
{
}

/// On an idle engine that has been configured, a frame request with one live
/// descriptor for both sides is accepted exactly when source and destination
/// each hold one frame, so the output frame has the input's length; and the
/// engine's success code then moves the engine on to `Processing`.
pub proof fn accepted_frame_keeps_length(
    state: EngineState,
    samples: int,
    src_len: int,
    dest_len: int,
    op: EngineOp,
)
    requires
        streaming(state),
        op == EngineOp::ProcessForward || op == EngineOp::ProcessReverse,
    ensures
        (accept_process(state, None, true, true, samples, samples, src_len, dest_len) is Ok) <==> (
        src_len == samples && dest_len == samples),
        (accept_process(state, None, true, true, samples, samples, src_len, dest_len) is Ok)
            ==> dest_len == src_len,
        completion_result(state, Some(op), 0) == Ok::<(), WebrtcApmError>(()),
        completion_state(state, Some(op), 0) == EngineState::Processing,
{
}

/// Tearing down owes a release only the first time: once destroyed, a second
/// teardown releases nothing.
pub proof fn teardown_is_idempotent(state: EngineState)
    ensures
        release_owed(state) <==> state != EngineState::Destroyed,
        !release_owed(EngineState::Destroyed),
{
}

} // verus!
