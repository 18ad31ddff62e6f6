use vstd::prelude::*;

verus! {

/// The failures a capture session can report.
#[derive(Clone, Copy, Debug, PartialEq, Eq, Structural)]
pub enum CaptureError {
    /// No input device, or its configuration could not be queried.
    DeviceUnavailable,
    /// The device refused the stream, or the sample format is not supported.
    StreamBuildFailed,
    /// The encoder's sink failed while appending or finalizing.
    EncoderIo,
    /// The encoder was still shared when the session tried to finalize it.
    StillBorrowed,
    /// The finalized recording holds no samples.
    EmptyArtifact,
    /// Transcription or delivery of a finished recording failed.
    Downstream,
    /// The recording ends inside a frame: its sample count is not a multiple
    /// of the channel count.
    UnfinishedFrame,
    /// A block of samples would overflow the largest data chunk a WAV file can hold.
    CapacityExceeded,
}

} // verus!
