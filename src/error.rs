use vstd::prelude::*;

verus! {

/// The ways a run can fail; each one ends the run.
#[derive(Debug, Clone, Copy, PartialEq, Eq, Structural)]
pub enum XkcdError {
    /// A connection failure, a timeout, or a non-success status.
    Network,
    /// The response body is not a complete record of the expected shape.
    Parse,
    /// The image URL yields no file name.
    Url,
    /// Writing the image file failed.
    Io,
    /// Rendering the record as JSON failed.
    Serialization,
}

impl XkcdError {
    /// A short description of the failed stage.
    pub fn describe(&self) -> (r: &'static str) {
        match self {
            XkcdError::Network => "network request failed",
            XkcdError::Parse => "response is not a valid comic record",
            XkcdError::Url => "image URL has no file name",
            XkcdError::Io => "writing the image file failed",
            XkcdError::Serialization => "rendering the record as JSON failed",
        }
    }
}

} // verus!
