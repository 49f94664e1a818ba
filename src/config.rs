use vstd::prelude::*;

verus! {

/// The rates at which the engine takes 16-bit frames.
pub open spec fn supported_rate(sample_rate_hz: i32) -> bool {
    sample_rate_hz == 8000 || sample_rate_hz == 16000 || sample_rate_hz == 32000
        || sample_rate_hz == 48000
}

/// Samples per channel in one frame: the engine works on frames of 10 ms.
pub open spec fn frame_len(sample_rate_hz: i32) -> int {
    sample_rate_hz / 100
}

/// A rate and channel count that a descriptor can be made of: the rate is
/// supported, there is at least one channel, and a whole frame fits in memory.
pub open spec fn valid_stream(sample_rate_hz: i32, num_channels: usize) -> bool {
    &&& supported_rate(sample_rate_hz)
    &&& num_channels > 0
    &&& num_channels * frame_len(sample_rate_hz) <= usize::MAX
}

/// Describes one side of an audio stream: its sample rate and channel count,
/// fixed at construction.
#[derive(Debug)]
pub struct StreamConfig {
    sample_rate_hz: i32,
    num_channels: usize,
    released: bool,
}

impl StreamConfig {
    /// Rate of the stream, in hertz.
    pub closed spec fn spec_sample_rate_hz(&self) -> i32 {
        self.sample_rate_hz
    }

    /// Number of interleaved channels.
    pub closed spec fn spec_num_channels(&self) -> usize {
        self.num_channels
    }

    /// Whether the descriptor's engine-side resource has been released.
    pub closed spec fn spec_released(&self) -> bool {
        self.released
    }

    /// Samples in one whole frame of this stream, all channels together.
    pub open spec fn spec_frame_samples(&self) -> int {
        self.spec_num_channels() * frame_len(self.spec_sample_rate_hz())
    }

    /// What every descriptor holds: a combination that `new` accepts.
    #[verifier::type_invariant]
    closed spec fn inv(&self) -> bool {
        valid_stream(self.sample_rate_hz, self.num_channels)
    }

    /// Makes a descriptor; `None` where the rate is not supported, there are no
    /// channels, or a frame could not be addressed.
    pub fn new(sample_rate_hz: i32, num_channels: usize) -> (r: Option<StreamConfig>)
        ensures
            r.is_some() <==> valid_stream(sample_rate_hz, num_channels),
            r matches Some(d) ==> {
                &&& d.spec_sample_rate_hz() == sample_rate_hz
                &&& d.spec_num_channels() == num_channels
                &&& !d.spec_released()
            },
    {
        let rate_ok = sample_rate_hz == 8000 || sample_rate_hz == 16000 || sample_rate_hz
            == 32000 || sample_rate_hz == 48000;
        if !rate_ok || num_channels == 0 {
            return None;
        }
        let per_channel = (sample_rate_hz / 100) as usize;
        if num_channels > usize::MAX / per_channel {
            proof {
                assert(num_channels * per_channel > usize::MAX) by (nonlinear_arith)
                    requires
                        num_channels > usize::MAX / per_channel,
                        per_channel > 0,
                ;
            }
            return None;
        }
        proof {
            assert(num_channels * per_channel <= usize::MAX) by (nonlinear_arith)
                requires
                    num_channels <= usize::MAX / per_channel,
                    per_channel > 0,
            ;
        }
        Some(StreamConfig { sample_rate_hz, num_channels, released: false })
    }

    pub fn sample_rate_hz(&self) -> (r: i32)
        ensures
            r == self.spec_sample_rate_hz(),
    {
        self.sample_rate_hz
    }

    pub fn num_channels(&self) -> (r: usize)
        ensures
            r == self.spec_num_channels(),
    {
        self.num_channels
    }

    /// Samples per channel in one frame.
    pub fn frame_len(&self) -> (r: usize)
        ensures
            r == frame_len(self.spec_sample_rate_hz()),
    {
        proof {
            use_type_invariant(self);
        }
        (self.sample_rate_hz / 100) as usize
    }

    /// Samples in one whole frame, all channels together: the length that a
    /// buffer of this stream must have.
    pub fn frame_samples(&self) -> (r: usize)
        ensures
            r == self.spec_frame_samples(),
    {
        proof {
            use_type_invariant(self);
        }
        self.num_channels * ((self.sample_rate_hz / 100) as usize)
    }

    /// True until `release` has been called.
    pub fn is_live(&self) -> (r: bool)
        ensures
            r == !self.spec_released(),
    {
        !self.released
    }

    /// Marks the descriptor released. Returns whether the engine-side resource
    /// is still to be freed: true on the first call, false on every later one.
    pub fn release(&mut self) -> (r: bool)
        ensures
            r == !old(self).spec_released(),
            final(self).spec_released(),
            final(self).spec_sample_rate_hz() == old(self).spec_sample_rate_hz(),
            final(self).spec_num_channels() == old(self).spec_num_channels(),
    {
        proof {
            use_type_invariant(&*self);
        }
        let owed = !self.released;
        self.released = true;
        owed
    }
}

/// Every supported rate with a positive channel count makes a valid stream, as
/// long as a frame of it can be addressed.
pub proof fn supported_streams_are_valid(sample_rate_hz: i32, num_channels: usize)
    requires
        supported_rate(sample_rate_hz),
        0 < num_channels <= usize::MAX / 480,
    ensures
        valid_stream(sample_rate_hz, num_channels),
        frame_len(sample_rate_hz) <= 480,
{
    assert(num_channels * frame_len(sample_rate_hz) <= num_channels * 480) by (nonlinear_arith)
        requires
            frame_len(sample_rate_hz) <= 480,
            num_channels > 0,
    ;
    assert(num_channels * 480 <= usize::MAX) by (nonlinear_arith)
        requires
            num_channels <= usize::MAX / 480,
    ;
}

} // verus!
