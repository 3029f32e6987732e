//! The ways a capture session can fail.

use vstd::prelude::*;
use vstd::string::StringExecFns;

verus! {

/// Every failure the pipeline distinguishes. The first five arise while
/// capturing, the last four while talking to the transcription service.
#[derive(Clone, Copy, Debug, PartialEq, Eq, Structural)]
pub enum PipelineError {
    /// The host has no default input device.
    NoInputDevice,
    /// The device offers no usable stream configuration.
    ConfigurationError,
    /// The device delivers samples in a format other than 32-bit float or
    /// 16-bit signed integer.
    UnsupportedFormat,
    /// The driver refused to build or start the stream.
    StreamStartError,
    /// The session ended without a single sample.
    NoAudioCaptured,
    /// The audio container could not be written.
    EncodingError,
    /// No connection to the transcription service.
    BackendUnreachable,
    /// The service answered the reachability check with a status outside 2xx.
    BackendUnhealthy,
    /// The service answered the dispatch with this status, outside 2xx.
    BackendError(u16),
    /// The service's answer is not a JSON document.
    MalformedResponse,
}

impl PipelineError {
    /// Failures of the capture path: they end the session before any audio
    /// exists.
    pub open spec fn on_capture_path(self) -> bool {
        self is NoInputDevice || self is ConfigurationError || self is UnsupportedFormat
            || self is StreamStartError || self is NoAudioCaptured
    }

    /// Failures of the dispatch path.
    pub open spec fn on_dispatch_path(self) -> bool {
        self is BackendUnreachable || self is BackendUnhealthy || self is BackendError
            || self is MalformedResponse
    }

    /// The line that reports the failure to a person.
    pub open spec fn message(self) -> Seq<char> {
        match self {
            PipelineError::NoInputDevice => "No input device available"@,
            PipelineError::ConfigurationError => "Failed to get default input config"@,
            PipelineError::UnsupportedFormat => "Unsupported sample format"@,
            PipelineError::StreamStartError => "Failed to start audio stream"@,
            PipelineError::NoAudioCaptured => "No audio data recorded"@,
            PipelineError::EncodingError => "Failed to write WAV data"@,
            PipelineError::BackendUnreachable => "Backend not available"@,
            PipelineError::BackendUnhealthy => "Backend unhealthy"@,
            PipelineError::BackendError(_) => "Backend returned error"@,
            PipelineError::MalformedResponse => "Failed to parse backend response"@,
        }
    }

    /// Writes `message` out.
    pub fn describe(&self) -> (text: String)
        ensures
            text@ == self.message(),
    {
        match self {
            PipelineError::NoInputDevice => String::from_str("No input device available"),
            PipelineError::ConfigurationError => String::from_str(
                "Failed to get default input config",
            ),
            PipelineError::UnsupportedFormat => String::from_str("Unsupported sample format"),
            PipelineError::StreamStartError => String::from_str("Failed to start audio stream"),
            PipelineError::NoAudioCaptured => String::from_str("No audio data recorded"),
            PipelineError::EncodingError => String::from_str("Failed to write WAV data"),
            PipelineError::BackendUnreachable => String::from_str("Backend not available"),
            PipelineError::BackendUnhealthy => String::from_str("Backend unhealthy"),
            PipelineError::BackendError(_) => String::from_str("Backend returned error"),
            PipelineError::MalformedResponse => String::from_str(
                "Failed to parse backend response",
            ),
        }
    }

    pub fn is_capture_error(&self) -> (b: bool)
        ensures
            b == self.on_capture_path(),
    {
        match self {
            PipelineError::NoInputDevice => true,
            PipelineError::ConfigurationError => true,
            PipelineError::UnsupportedFormat => true,
            PipelineError::StreamStartError => true,
            PipelineError::NoAudioCaptured => true,
            _ => false,
        }
    }

    pub fn is_dispatch_error(&self) -> (b: bool)
        ensures
            b == self.on_dispatch_path(),
    {
        match self {
            PipelineError::BackendUnreachable => true,
            PipelineError::BackendUnhealthy => true,
            PipelineError::BackendError(_) => true,
            PipelineError::MalformedResponse => true,
            _ => false,
        }
    }
}

} // verus!
