use vstd::prelude::*;

verus! {

/// How request bodies are read.
#[derive(Clone, Copy, PartialEq, Eq, Structural)]
pub enum InputMode {
    /// A WAV container, checked to be mono at the model's rate.
    Container,
    /// Headerless little-endian 32-bit floats, trusted to be in the model's
    /// format already.
    RawFloat32,
}

/// The recognised options of the transcription service.
pub struct TranscriberConfig {
    /// Where the model file is read from, once, at startup.
    pub model_path: String,
    /// Ask the engine for hardware acceleration.
    pub use_gpu: bool,
    /// Candidates kept by the greedy decoder.
    pub best_of: i32,
    /// Translate into `language` instead of transcribing as spoken.
    pub translate: bool,
    /// Target language; `None` lets the engine detect it.
    pub language: Option<String>,
    /// How request bodies are decoded.
    pub input: InputMode,
}

impl TranscriberConfig {
    /// The service's standing configuration: `model.bin`, on the GPU, greedy
    /// decoding with five candidates, translated into English, container input.
    pub fn new() -> (r: TranscriberConfig)
        ensures
            r.model_path@ == "model.bin"@,
            r.use_gpu,
            r.best_of == 5,
            r.translate,
            r.language matches Some(l) && l@ == "en"@,
            r.input == InputMode::Container,
    {
        TranscriberConfig {
            model_path: String::from_str("model.bin"),
            use_gpu: true,
            best_of: 5,
            translate: true,
            language: Some(String::from_str("en")),
            input: InputMode::Container,
        }
    }
}

} // verus!
