use vstd::prelude::*;

verus! {

/// Every failure a transcription request can end in.
pub enum Error {
    /// The byte stream could not be read (a truncated container, a model
    /// file that could not be loaded).
    Io(String),
    /// The inference engine reported a failure; its message is kept as is.
    Whisper(String),
    /// The audio container was parsed but breaks the format that the model
    /// needs, or its header is malformed.
    Codec(String),
}

} // verus!
