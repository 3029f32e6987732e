//! The capture loop: one recording session from the opening of the input
//! device to the handing over of its samples.
//!
//! The loop decides; its caller acts. The caller queries the device, builds
//! and drops the stream, reads the clock and sleeps, and tells the loop what
//! it found. Time is in milliseconds of a monotonic clock.

use crate::channel::CaptureChannel;
use crate::error::PipelineError;
use crate::sample::{pcm16_block, Sample};
use crate::types::CancellationSignal;
use crate::wav::{check_encodable, convert_to_wav, fits_container, is_encodable, wav_image};
use vstd::prelude::*;

verus! {

/// Time between two polls of the channel while nothing ends the session.
pub const POLL_INTERVAL_MS: u64 = 50;

/// Hard ceiling on the length of a session, whatever the stop flag says.
pub const MAX_SESSION_MS: u64 = 30_000;

/// The sample formats a device can report, as far as the pipeline tells
/// them apart.
#[derive(Clone, Copy, Debug, PartialEq, Eq, Structural)]
pub enum HardwareFormat {
    /// 32-bit floating point, the canonical format itself.
    F32,
    /// 16-bit signed integer.
    I16,
    /// Anything else.
    Unsupported,
}

/// What the host said when asked for its default input device and that
/// device's default configuration.
#[derive(Clone, Copy, Debug, PartialEq, Eq, Structural)]
pub enum DeviceProbe {
    NoDevice,
    NoConfiguration,
    Configured { sample_rate: u32, channels: u16, format: HardwareFormat },
}

/// Where a session stands.
#[derive(Clone, Copy, Debug, PartialEq, Eq, Structural)]
pub enum CapturePhase {
    /// The device is chosen; the stream is not running yet.
    Opening,
    /// The stream runs and the channel is polled.
    Active,
    /// The session has ended; one last drain is due before the stream goes.
    Draining,
    /// Terminal: the samples can be taken.
    Closed,
}

/// What the caller does after a poll.
#[derive(Clone, Copy, Debug, PartialEq, Eq, Structural)]
pub enum PollAction {
    /// Sleep this many milliseconds, then poll again.
    Wait(u64),
    /// Stop polling: drain once more and release the stream.
    Drain,
}

/// The outcome of a session that captured something.
#[derive(Clone, Debug)]
pub struct RecordingSession {
    /// Clock reading at which the stream started.
    pub started_at: u64,
    /// Samples per second and channel, as the device delivers them.
    pub sample_rate: u32,
    /// Interleaved channels per frame.
    pub channel_count: u16,
    /// Every captured sample, in order of arrival.
    pub samples: Vec<Sample>,
}

/// A session in progress.
pub struct CaptureLoop {
    phase: CapturePhase,
    format: HardwareFormat,
    started_at: u64,
    sample_rate: u32,
    channel_count: u16,
    samples: Vec<Sample>,
}

/// What opening a session on the probed device leads to: the error that
/// ends it, or nothing to object to. A format the normaliser does not know
/// is reported as such whatever else the configuration says; only a stream
/// of a known format is asked whether a container could describe it.
pub open spec fn probe_error(probe: DeviceProbe) -> Option<PipelineError> {
    match probe {
        DeviceProbe::NoDevice => Some(PipelineError::NoInputDevice),
        DeviceProbe::NoConfiguration => Some(PipelineError::ConfigurationError),
        DeviceProbe::Configured { sample_rate, channels, format } => {
            if format is Unsupported {
                Some(PipelineError::UnsupportedFormat)
            } else if !is_encodable(sample_rate, channels) {
                Some(PipelineError::ConfigurationError)
            } else {
                None
            }
        },
    }
}

/// Time since `started_at`, zero for a reading from before it.
pub open spec fn elapsed_since(started_at: u64, now: u64) -> u64 {
    if now >= started_at {
        (now - started_at) as u64
    } else {
        0
    }
}

/// The decision of one poll, taken from the stop flag, the time the session
/// has run, and whether the producer is still connected once the channel
/// has been drained. The flag and the ceiling come first.
pub open spec fn poll_decision(stop: bool, elapsed: u64, producer_connected: bool) -> PollAction {
    if stop || elapsed >= MAX_SESSION_MS || !producer_connected {
        PollAction::Drain
    } else if MAX_SESSION_MS - elapsed < POLL_INTERVAL_MS {
        PollAction::Wait((MAX_SESSION_MS - elapsed) as u64)
    } else {
        PollAction::Wait(POLL_INTERVAL_MS)
    }
}

/// Whether a poll takes the queued blocks: it does unless the stop flag or
/// the ceiling has already ended the session.
pub open spec fn poll_collects(stop: bool, elapsed: u64) -> bool {
    !stop && elapsed < MAX_SESSION_MS
}

/// On a clock that wakes the loop exactly when each wait is over, the time
/// at which a session that nothing stops turns to draining.
pub open spec fn drain_time(elapsed: u64) -> u64
    decreases MAX_SESSION_MS - elapsed,
{
    match poll_decision(false, elapsed, true) {
        PollAction::Drain => elapsed,
        PollAction::Wait(ms) => drain_time((elapsed + ms) as u64),
    }
}

/// Without a stop request the loop turns to draining at the ceiling, never
/// after it: every wait it asks for ends at or before the ceiling, and a
/// poll at the ceiling or beyond ends the session whatever the flag says.
pub proof fn ceiling_is_never_passed(elapsed: u64, stop: bool, producer_connected: bool)
    ensures
        elapsed >= MAX_SESSION_MS ==> poll_decision(stop, elapsed, producer_connected)
            == PollAction::Drain,
        poll_decision(stop, elapsed, producer_connected) matches PollAction::Wait(ms) ==> (1 <= ms
            <= POLL_INTERVAL_MS && elapsed + ms <= MAX_SESSION_MS),
        elapsed <= MAX_SESSION_MS ==> drain_time(elapsed) == MAX_SESSION_MS,
    decreases MAX_SESSION_MS - elapsed,
{
    if elapsed < MAX_SESSION_MS {
        match poll_decision(false, elapsed, true) {
            PollAction::Drain => {},
            PollAction::Wait(ms) => {
                ceiling_is_never_passed((elapsed + ms) as u64, false, true);
            },
        }
    }
}

impl CaptureLoop {
    pub closed spec fn phase(&self) -> CapturePhase {
        self.phase
    }

    pub closed spec fn format(&self) -> HardwareFormat {
        self.format
    }

    pub closed spec fn started_at(&self) -> u64 {
        self.started_at
    }

    pub closed spec fn sample_rate(&self) -> u32 {
        self.sample_rate
    }

    pub closed spec fn channel_count(&self) -> u16 {
        self.channel_count
    }

    /// The samples collected so far.
    pub closed spec fn samples(&self) -> Seq<Sample> {
        self.samples@
    }

    /// The stream parameters are fixed for the life of the session.
    pub open spec fn same_stream(&self, other: &CaptureLoop) -> bool {
        &&& self.format() == other.format()
        &&& self.sample_rate() == other.sample_rate()
        &&& self.channel_count() == other.channel_count()
    }

    /// Opens a session on what the host reported. Without a device, without
    /// a configuration, with a sample format other than float or 16-bit
    /// integer, or with a stream no container could describe the session
    /// fails, in that order of precedence, before any stream exists, and
    /// the stop flag is left alone. Otherwise
    /// the flag is lowered, so that a stop left over from the last session
    /// cannot end this one, and the caller may build the stream.
    pub fn open(probe: DeviceProbe, signal: &mut CancellationSignal) -> (r: Result<
        CaptureLoop,
        PipelineError,
    >)
        ensures
            match probe_error(probe) {
                Some(e) => r == Err::<CaptureLoop, PipelineError>(e)
                    && *final(signal) == *old(signal),
                None => r matches Ok(session) && !final(signal).stop_requested() && session.phase()
                    == CapturePhase::Opening && session.samples().len() == 0 && probe
                    == (DeviceProbe::Configured {
                    sample_rate: session.sample_rate(),
                    channels: session.channel_count(),
                    format: session.format(),
                }),
            },
    {
        match probe {
            DeviceProbe::NoDevice => Err(PipelineError::NoInputDevice),
            DeviceProbe::NoConfiguration => Err(PipelineError::ConfigurationError),
            DeviceProbe::Configured { sample_rate, channels, format } => {
                match format {
                    HardwareFormat::Unsupported => Err(PipelineError::UnsupportedFormat),
                    _ => {
                        if !check_encodable(sample_rate, channels) {
                            return Err(PipelineError::ConfigurationError);
                        }
                        signal.reset();
                        Ok(
                            CaptureLoop {
                                phase: CapturePhase::Opening,
                                format,
                                started_at: 0,
                                sample_rate,
                                channel_count: channels,
                                samples: Vec::new(),
                            },
                        )
                    },
                }
            },
        }
    }

    /// Where the session stands.
    pub fn current_phase(&self) -> (p: CapturePhase)
        ensures
            p == self.phase(),
    {
        self.phase
    }

    /// The format the stream's callback has to normalise from.
    pub fn hardware_format(&self) -> (f: HardwareFormat)
        ensures
            f == self.format(),
    {
        self.format
    }

    /// Number of samples collected so far.
    pub fn sample_count(&self) -> (n: usize)
        ensures
            n == self.samples().len(),
    {
        self.samples.len()
    }

    /// Takes the driver's answer to building and starting the stream. A
    /// running stream makes the session active from `now` on; a refusal
    /// closes it with `StreamStartError`.
    pub fn confirm_stream(&mut self, started: bool, now: u64) -> (r: Result<(), PipelineError>)
        requires
            old(self).phase() == CapturePhase::Opening,
        ensures
            final(self).same_stream(old(self)),
            final(self).samples() == old(self).samples(),
            started ==> r is Ok,
            started ==> final(self).phase() == CapturePhase::Active,
            started ==> final(self).started_at() == now,
            !started ==> r == Err::<(), PipelineError>(PipelineError::StreamStartError),
            !started ==> final(self).phase() == CapturePhase::Closed,
            !started ==> final(self).started_at() == old(self).started_at(),
    {
        if started {
            self.phase = CapturePhase::Active;
            self.started_at = now;
            Ok(())
        } else {
            self.phase = CapturePhase::Closed;
            Err(PipelineError::StreamStartError)
        }
    }

    /// One poll of an active session at clock reading `now`. First the stop
    /// flag, then the ceiling: either ends the session without touching the
    /// channel. Otherwise every queued block moves to the session's buffer,
    /// and the session goes on unless the producer is gone. While it goes
    /// on, the wait that comes back never passes the ceiling.
    pub fn poll(
        &mut self,
        signal: &CancellationSignal,
        now: u64,
        channel: &mut CaptureChannel,
    ) -> (action: PollAction)
        requires
            old(self).phase() == CapturePhase::Active,
        ensures
            final(self).same_stream(old(self)),
            final(self).started_at() == old(self).started_at(),
            final(channel).producer_connected() == old(channel).producer_connected(),
            final(channel).consumer_connected() == old(channel).consumer_connected(),
            action == poll_decision(
                signal.stop_requested(),
                elapsed_since(old(self).started_at(), now),
                old(channel).producer_connected(),
            ),
            final(self).phase() == (if action is Drain {
                CapturePhase::Draining
            } else {
                CapturePhase::Active
            }),
            poll_collects(signal.stop_requested(), elapsed_since(old(self).started_at(), now))
                ==> final(self).samples() == old(self).samples() + old(channel).pending_samples()
                && final(channel).pending().len() == 0,
            !poll_collects(signal.stop_requested(), elapsed_since(old(self).started_at(), now))
                ==> final(self).samples() == old(self).samples() && final(channel).pending()
                == old(channel).pending(),
    {
        let elapsed: u64 = if now >= self.started_at {
            now - self.started_at
        } else {
            0
        };
        if signal.is_stop_requested() || elapsed >= MAX_SESSION_MS {
            self.phase = CapturePhase::Draining;
            return PollAction::Drain;
        }
        let disconnected = channel.drain_into(&mut self.samples);
        if disconnected {
            self.phase = CapturePhase::Draining;
            return PollAction::Drain;
        }
        let left: u64 = MAX_SESSION_MS - elapsed;
        if left < POLL_INTERVAL_MS {
            PollAction::Wait(left)
        } else {
            PollAction::Wait(POLL_INTERVAL_MS)
        }
    }

    /// The last act of a session: takes what was queued between the final
    /// poll and now, and closes. Afterwards the caller releases the stream.
    pub fn drain(&mut self, channel: &mut CaptureChannel)
        requires
            old(self).phase() == CapturePhase::Draining,
        ensures
            final(self).same_stream(old(self)),
            final(self).started_at() == old(self).started_at(),
            final(self).phase() == CapturePhase::Closed,
            final(self).samples() == old(self).samples() + old(channel).pending_samples(),
            final(channel).pending().len() == 0,
            final(channel).producer_connected() == old(channel).producer_connected(),
            final(channel).consumer_connected() == old(channel).consumer_connected(),
    {
        let _ = channel.drain_into(&mut self.samples);
        self.phase = CapturePhase::Closed;
    }

    /// Hands over a closed session. A session without a single sample fails
    /// with `NoAudioCaptured`: the user toggled off at once, or the device
    /// never delivered.
    pub fn finish(self) -> (r: Result<RecordingSession, PipelineError>)
        requires
            self.phase() == CapturePhase::Closed,
        ensures
            self.samples().len() == 0 ==> r == Err::<RecordingSession, PipelineError>(
                PipelineError::NoAudioCaptured,
            ),
            self.samples().len() > 0 ==> (r matches Ok(session) && session.samples@
                == self.samples() && session.sample_rate == self.sample_rate()
                && session.channel_count == self.channel_count() && session.started_at
                == self.started_at()),
    {
        if self.samples.len() == 0 {
            Err(PipelineError::NoAudioCaptured)
        } else {
            Ok(
                RecordingSession {
                    started_at: self.started_at,
                    sample_rate: self.sample_rate,
                    channel_count: self.channel_count,
                    samples: self.samples,
                },
            )
        }
    }
}

impl RecordingSession {
    /// Encodes the session as a 16-bit PCM container with the session's own
    /// sample rate and channel count. It succeeds exactly when a container
    /// can hold the session, and otherwise fails with `EncodingError`.
    pub fn encode(&self) -> (r: Result<Vec<u8>, PipelineError>)
        ensures
            r is Ok <==> fits_container(
                self.sample_rate,
                self.channel_count,
                self.samples@.len(),
            ),
            r matches Ok(bytes) ==> bytes@ == wav_image(
                self.channel_count,
                self.sample_rate,
                pcm16_block(self.samples@),
            ),
            r matches Err(e) ==> e == PipelineError::EncodingError,
    {
        convert_to_wav(self.samples.as_slice(), self.sample_rate, self.channel_count)
    }
}

} // verus!
