//! Error values for editing operations.
//!
//! Every failure in the library is reported as an explicit value of
//! [`VideoEditorError`]; no operation panics on inputs its contract admits.

use vstd::prelude::*;

verus! {

/// Operation errors, each carrying a human-readable message.
#[derive(Debug, Clone)]
pub enum VideoEditorError {
    /// Timeline error.
    Timeline(String),
    /// Asset error.
    Asset(String),
    /// Effect error.
    Effect(String),
    /// GPU error.
    Gpu(String),
    /// Export error.
    Export(String),
    /// IO error.
    Io(String),
    /// Unsupported format error.
    UnsupportedFormat(String),
    /// Conversion error.
    Conversion(String),
    /// Decoder error.
    Decoder(String),
}

impl VideoEditorError {
    /// Creates an unsupported format error.
    pub fn unsupported_format(msg: String) -> (r: Self)
        ensures
            r == VideoEditorError::UnsupportedFormat(msg),
    {
        VideoEditorError::UnsupportedFormat(msg)
    }

    /// Creates a conversion error.
    pub fn conversion(msg: String) -> (r: Self)
        ensures
            r == VideoEditorError::Conversion(msg),
    {
        VideoEditorError::Conversion(msg)
    }

    /// Creates a decoder error.
    pub fn decoder(msg: String) -> (r: Self)
        ensures
            r == VideoEditorError::Decoder(msg),
    {
        VideoEditorError::Decoder(msg)
    }
}

/// Result type for video editor operations.
pub type VideoEditorResult<T> = Result<T, VideoEditorError>;

} // verus!
