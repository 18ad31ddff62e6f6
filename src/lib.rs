//! Toggle-driven audio capture: sample conversion, a WAV encoder handle,
//! the session state machine that starts, stops and hands off recordings,
//! and the small rules around it (file names, request headers, responses).

pub mod config;
pub mod encoder;
pub mod error;
pub mod naming;
pub mod sample;
pub mod session;
pub mod signal;
mod text;
pub mod transcript;
pub mod wav;

pub use config::ApiKeyConfig;
pub use encoder::{Artifact, EncoderHandle, SampleSpec, MAX_DATA_BYTES};
pub use error::CaptureError;
pub use naming::{is_stale_recording, recording_file_name, recording_path};
pub use sample::{convert_i16, convert_u16};
pub use session::{Action, Event, Phase, SessionController};
pub use signal::toggled_signal;
pub use transcript::{authorization_value, transcript_from_field, transcript_from_response};
