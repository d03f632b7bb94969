use vstd::prelude::*;

use crate::error::ClientError;

verus! {

/// The coder's own sample rate, in hertz.
pub const INTERNAL_SAMPLE_RATE: u32 = 48000;

/// Frames per second: one frame lasts twenty milliseconds.
pub const FRAMES_PER_SECOND: u32 = 50;

/// The supported rate nearest to `rate`, ties going to the higher one.
/// The supported rates are 8, 12, 16, 24 and 48 kHz.
pub open spec fn snapped_rate(rate: u32) -> u32 {
    if rate < 10000 {
        8000
    } else if rate < 14000 {
        12000
    } else if rate < 20000 {
        16000
    } else if rate < 36000 {
        24000
    } else {
        48000
    }
}

/// Samples in one frame at `rate` with `channels` interleaved channels.
pub open spec fn frame_samples(rate: u32, channels: usize) -> nat {
    (rate / FRAMES_PER_SECOND) as nat * channels as nat
}

/// The settings the coder runs with.
#[derive(PartialEq, Eq, Structural, Debug, Clone, Copy)]
pub struct CodecConfig {
    /// The device's own capture rate; captured frames come at this rate.
    pub capture_rate: u32,
    /// The capture rate snapped to a supported one.
    pub sample_rate: u32,
    /// Interleaved channels: one or two.
    pub channels: usize,
}

impl CodecConfig {
    pub open spec fn wf(&self) -> bool {
        &&& self.sample_rate == snapped_rate(self.capture_rate)
        &&& (self.channels == 1 || self.channels == 2)
    }

    /// Checks the channel count, keeps the capture rate and snaps it.
    pub fn configure(sample_rate: u32, channels: usize) -> (r: Result<CodecConfig, ClientError>)
        ensures
            match r {
                Ok(c) => (channels == 1 || channels == 2) && c.wf() && c.capture_rate
                    == sample_rate && c.sample_rate == snapped_rate(sample_rate) && c.channels
                    == channels,
                Err(e) => !(channels == 1 || channels == 2) && e == ClientError::InvalidChannelCount,
            },
    {
        if channels != 1 && channels != 2 {
            return Err(ClientError::InvalidChannelCount);
        }
        let rate = if sample_rate < 10000 {
            8000
        } else if sample_rate < 14000 {
            12000
        } else if sample_rate < 20000 {
            16000
        } else if sample_rate < 36000 {
            24000
        } else {
            48000
        };
        Ok(CodecConfig { capture_rate: sample_rate, sample_rate: rate, channels })
    }

    /// Samples that one captured frame holds.
    pub fn frame_size(&self) -> (r: usize)
        requires
            self.wf(),
        ensures
            r == frame_samples(self.capture_rate, self.channels),
    {
        (self.capture_rate / FRAMES_PER_SECOND) as usize * self.channels
    }

    /// Samples that one decoded frame holds: decoding yields the coder's own rate.
    pub fn decoded_frame_size(&self) -> (r: usize)
        requires
            self.wf(),
        ensures
            r == frame_samples(INTERNAL_SAMPLE_RATE, self.channels),
    {
        (INTERNAL_SAMPLE_RATE / FRAMES_PER_SECOND) as usize * self.channels
    }

    /// Whether captured frames are converted from the capture rate to the
    /// coder's own rate first.
    pub fn needs_resampler(&self) -> (r: bool)
        ensures
            r == (self.capture_rate != INTERNAL_SAMPLE_RATE),
    {
        self.capture_rate != INTERNAL_SAMPLE_RATE
    }
}

/// The coder's configuration, absent until it is first configured.
pub struct CodecState {
    config: Option<CodecConfig>,
}

impl CodecState {
    pub closed spec fn current(&self) -> Option<CodecConfig> {
        self.config
    }

    pub open spec fn wf(&self) -> bool {
        self.current() matches Some(c) ==> c.wf()
    }

    pub fn new() -> (r: CodecState)
        ensures
            r.wf(),
            r.current() is None,
    {
        CodecState { config: None }
    }

    pub fn config(&self) -> (r: Option<CodecConfig>)
        ensures
            r == self.current(),
    {
        self.config
    }

    /// Configures the coder; a bad channel count leaves it as it was.
    /// The outcome depends on the arguments alone.
    pub fn update(&mut self, sample_rate: u32, channels: usize) -> (r: Result<(), ClientError>)
        requires
            old(self).wf(),
        ensures
            final(self).wf(),
            (channels == 1 || channels == 2) ==> r is Ok && final(self).current() == Some(
                CodecConfig {
                    capture_rate: sample_rate,
                    sample_rate: snapped_rate(sample_rate),
                    channels,
                },
            ),
            !(channels == 1 || channels == 2) ==> r == Err::<(), ClientError>(
                ClientError::InvalidChannelCount,
            ) && final(self).current() == old(self).current(),
    {
        match CodecConfig::configure(sample_rate, channels) {
            Ok(c) => {
                self.config = Some(c);
                Ok(())
            },
            Err(e) => Err(e),
        }
    }

    /// Checks that `len` samples make exactly one captured frame.
    pub fn check_frame(&self, len: usize) -> (r: Result<CodecConfig, ClientError>)
        requires
            self.wf(),
        ensures
            match self.current() {
                None => r == Err::<CodecConfig, ClientError>(ClientError::CodecNotInitialized),
                Some(c) => if len == frame_samples(c.capture_rate, c.channels) {
                    r == Ok::<CodecConfig, ClientError>(c)
                } else {
                    r == Err::<CodecConfig, ClientError>(ClientError::InvalidFrameSize)
                },
            },
    {
        match self.config {
            None => Err(ClientError::CodecNotInitialized),
            Some(c) => {
                if len == c.frame_size() {
                    Ok(c)
                } else {
                    Err(ClientError::InvalidFrameSize)
                }
            },
        }
    }
}

/// A configuration depends on its arguments alone, and a snapped rate is
/// already supported: configuring again with the same arguments, or with the
/// snapped rate, gives the same coder rate.
pub proof fn lemma_update_idempotent(sample_rate: u32, channels: usize)
    requires
        channels == 1 || channels == 2,
    ensures
        (CodecConfig {
            capture_rate: sample_rate,
            sample_rate: snapped_rate(sample_rate),
            channels,
        }).wf(),
        snapped_rate(snapped_rate(sample_rate)) == snapped_rate(sample_rate),
{
}

} // verus!
