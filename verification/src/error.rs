//! The error kinds a session can end with.

use vstd::prelude::*;

verus! {

/// Everything that can go fatally wrong during a session. None of these is
/// recovered locally: each ends the event loop, and the terminal modes are
/// restored before the error reaches the caller.
#[derive(Clone, Copy, PartialEq, Eq, Structural, Debug)]
pub enum AppError {
    /// The remote surface is unreachable or a load never settles.
    Navigation,
    /// A snapshot request failed or timed out.
    Capture,
    /// The compressed snapshot bytes are malformed or unsupported.
    Decode,
    /// The pixel buffer is invalid for the chosen encoder parameters.
    Encode,
    /// A terminal write, flush or mode switch failed.
    TerminalIo,
}

impl AppError {
    /// A short diagnostic for the restored standard output.
    pub fn message(&self) -> (s: String)
        ensures
            s@ == match *self {
                AppError::Navigation => "navigation failed: remote surface unreachable"@,
                AppError::Capture => "capture failed: snapshot request failed or timed out"@,
                AppError::Decode => "decode failed: compressed image bytes malformed"@,
                AppError::Encode => "encode failed: pixel buffer rejected by the encoder"@,
                AppError::TerminalIo => "terminal failure: write, flush or mode switch failed"@,
            },
    {
        match *self {
            AppError::Navigation => "navigation failed: remote surface unreachable".to_owned(),
            AppError::Capture => "capture failed: snapshot request failed or timed out".to_owned(),
            AppError::Decode => "decode failed: compressed image bytes malformed".to_owned(),
            AppError::Encode => "encode failed: pixel buffer rejected by the encoder".to_owned(),
            AppError::TerminalIo => "terminal failure: write, flush or mode switch failed".to_owned(),
        }
    }
}

} // verus!
