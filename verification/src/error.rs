//! Typed errors for every stage of the pipeline, and the application-level
//! error that folds them together.

use vstd::prelude::*;

verus! {

/// Audio-capture errors.
#[derive(Debug)]
pub enum AudioError {
    NoInputDevice,
    DeviceNotFound { device_name: String },
    UnsupportedFormat { details: String },
    StreamError(String),
    ProcessingTimeout { timeout_ms: u64 },
    BufferOverflow,
    VADError(String),
    CaptureInitFailed(String),
}

/// Speech-to-text errors.
#[derive(Debug)]
pub enum STTError {
    ModelNotFound,
    TranscriptionFailed(String),
    ModelLoadTimeout,
    PreprocessingFailed(String),
}

/// Remote text-processing errors.
#[derive(Debug)]
pub enum AIError {
    APIRequestFailed { status_code: u16 },
    AuthenticationFailed,
    RateLimitExceeded,
    ResponseParsingFailed(String),
    StreamingConnectionLost,
    InvalidAPIKey,
}

/// Desktop-integration errors.
#[derive(Debug)]
pub enum SystemError {
    HotkeyRegistrationFailed { key_combination: String },
    ClipboardAccessFailed,
    TextSelectionFailed,
    PermissionDenied { operation: String },
    PlatformNotSupported,
}

/// Application-level error: one variant per subsystem.
#[derive(Debug)]
pub enum AppError {
    Audio(AudioError),
    STT(STTError),
    AI(AIError),
    System(SystemError),
    Config(String),
    IO(String),
}

impl From<AudioError> for AppError {
    fn from(e: AudioError) -> (r: AppError) {
        AppError::Audio(e)
    }
}

impl vstd::std_specs::convert::FromSpecImpl<AudioError> for AppError {
    open spec fn obeys_from_spec() -> bool {
        true
    }

    open spec fn from_spec(e: AudioError) -> AppError {
        AppError::Audio(e)
    }
}

impl From<STTError> for AppError {
    fn from(e: STTError) -> (r: AppError) {
        AppError::STT(e)
    }
}

impl vstd::std_specs::convert::FromSpecImpl<STTError> for AppError {
    open spec fn obeys_from_spec() -> bool {
        true
    }

    open spec fn from_spec(e: STTError) -> AppError {
        AppError::STT(e)
    }
}

impl From<AIError> for AppError {
    fn from(e: AIError) -> (r: AppError) {
        AppError::AI(e)
    }
}

impl vstd::std_specs::convert::FromSpecImpl<AIError> for AppError {
    open spec fn obeys_from_spec() -> bool {
        true
    }

    open spec fn from_spec(e: AIError) -> AppError {
        AppError::AI(e)
    }
}

impl From<SystemError> for AppError {
    fn from(e: SystemError) -> (r: AppError) {
        AppError::System(e)
    }
}

impl vstd::std_specs::convert::FromSpecImpl<SystemError> for AppError {
    open spec fn obeys_from_spec() -> bool {
        true
    }

    open spec fn from_spec(e: SystemError) -> AppError {
        AppError::System(e)
    }
}

} // verus!
