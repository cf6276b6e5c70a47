//! Uniform success/error envelopes for the command surface.
//!
//! Each subsystem has its own envelope type so the command layer can
//! evolve them independently; all four share the same shape and the same
//! constructors.

use vstd::prelude::*;

verus! {

/// Envelope for audio commands.
#[derive(Debug)]
pub struct AudioCommandResponse<T> {
    pub success: bool,
    pub data: Option<T>,
    pub error: Option<String>,
}

impl<T> AudioCommandResponse<T> {
    /// A successful response carrying `data`.
    pub fn success(data: T) -> (r: AudioCommandResponse<T>)
        ensures
            r.success,
            r.data == Some(data),
            r.error is None,
    {
        AudioCommandResponse { success: true, data: Some(data), error: None }
    }

    /// A failed response carrying the error text.
    pub fn error(error: String) -> (r: AudioCommandResponse<T>)
        ensures
            !r.success,
            r.data is None,
            r.error == Some(error),
    {
        AudioCommandResponse { success: false, data: None, error: Some(error) }
    }
}

/// Envelope for speech-to-text and AI commands.
#[derive(Debug)]
pub struct AICommandResponse<T> {
    pub success: bool,
    pub data: Option<T>,
    pub error: Option<String>,
}

impl<T> AICommandResponse<T> {
    /// A successful response carrying `data`.
    pub fn success(data: T) -> (r: AICommandResponse<T>)
        ensures
            r.success,
            r.data == Some(data),
            r.error is None,
    {
        AICommandResponse { success: true, data: Some(data), error: None }
    }

    /// A failed response carrying the error text.
    pub fn error(error: String) -> (r: AICommandResponse<T>)
        ensures
            !r.success,
            r.data is None,
            r.error == Some(error),
    {
        AICommandResponse { success: false, data: None, error: Some(error) }
    }
}

/// Envelope for desktop-integration commands.
#[derive(Debug)]
pub struct SystemCommandResponse<T> {
    pub success: bool,
    pub data: Option<T>,
    pub error: Option<String>,
}

impl<T> SystemCommandResponse<T> {
    /// A successful response carrying `data`.
    pub fn success(data: T) -> (r: SystemCommandResponse<T>)
        ensures
            r.success,
            r.data == Some(data),
            r.error is None,
    {
        SystemCommandResponse { success: true, data: Some(data), error: None }
    }

    /// A failed response carrying the error text.
    pub fn error(error: String) -> (r: SystemCommandResponse<T>)
        ensures
            !r.success,
            r.data is None,
            r.error == Some(error),
    {
        SystemCommandResponse { success: false, data: None, error: Some(error) }
    }
}

/// Envelope for telemetry commands.
#[derive(Debug)]
pub struct PerformanceCommandResponse<T> {
    pub success: bool,
    pub data: Option<T>,
    pub error: Option<String>,
}

impl<T> PerformanceCommandResponse<T> {
    /// A successful response carrying `data`.
    pub fn success(data: T) -> (r: PerformanceCommandResponse<T>)
        ensures
            r.success,
            r.data == Some(data),
            r.error is None,
    {
        PerformanceCommandResponse { success: true, data: Some(data), error: None }
    }

    /// A failed response carrying the error text.
    pub fn error(error: String) -> (r: PerformanceCommandResponse<T>)
        ensures
            !r.success,
            r.data is None,
            r.error == Some(error),
    {
        PerformanceCommandResponse { success: false, data: None, error: Some(error) }
    }
}

} // verus!
