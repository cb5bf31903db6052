//! The ways in which a run of the generator ends without its artifacts.

use vstd::prelude::*;
use vstd::string::*;

verus! {

/// One of the two artifacts that a run writes.
#[derive(Debug, Clone, Copy, PartialEq, Eq, Structural)]
pub enum Artifact {
    /// The declarations with the shims and the import line.
    Bindings,
    /// The module that declares the first artifact as its submodule.
    Module,
}

/// Why a run was given up. Every one of these ends the run: nothing is tried
/// again, and nothing is written after it.
#[derive(Debug, Clone, Copy, PartialEq, Eq, Structural)]
pub enum GenerationError {
    /// The path of the library's include directory is not text.
    IncludePathNotText,
    /// The path of the library's configuration header is not text.
    ConfigPathNotText,
    /// The compiler's answer to the sysroot query is not text.
    MalformedSysroot,
    /// One of the compiler's arguments is not text.
    ArgumentNotText,
    /// The extractor produced no declarations.
    Extraction,
    /// The extractor's output is not a well-formed Rust file.
    MalformedDeclarations,
    /// An artifact could not be written.
    Io(Artifact),
    /// The driver reported something that the run was not waiting for.
    UnexpectedEvent,
}

/// The diagnostic for an error.
pub open spec fn diagnostic(error: GenerationError) -> Seq<char> {
    match error {
        GenerationError::IncludePathNotText => "include directory UTF-8 error"@,
        GenerationError::ConfigPathNotText => "config.h UTF-8 error"@,
        GenerationError::MalformedSysroot => "Malformed sysroot"@,
        GenerationError::ArgumentNotText => "compiler argument UTF-8 error"@,
        GenerationError::Extraction => "bindgen error"@,
        GenerationError::MalformedDeclarations => "bindings.rs syntax error"@,
        GenerationError::Io(Artifact::Bindings) => "bindings.rs I/O error"@,
        GenerationError::Io(Artifact::Module) => "mod-bindings.rs I/O error"@,
        GenerationError::UnexpectedEvent => "unexpected event"@,
    }
}

impl GenerationError {
    /// The diagnostic text for this error.
    pub fn message(&self) -> (text: &'static str)
        ensures
            text@ == diagnostic(*self),
    {
        match self {
            GenerationError::IncludePathNotText => "include directory UTF-8 error",
            GenerationError::ConfigPathNotText => "config.h UTF-8 error",
            GenerationError::MalformedSysroot => "Malformed sysroot",
            GenerationError::ArgumentNotText => "compiler argument UTF-8 error",
            GenerationError::Extraction => "bindgen error",
            GenerationError::MalformedDeclarations => "bindings.rs syntax error",
            GenerationError::Io(Artifact::Bindings) => "bindings.rs I/O error",
            GenerationError::Io(Artifact::Module) => "mod-bindings.rs I/O error",
            GenerationError::UnexpectedEvent => "unexpected event",
        }
    }
}

} // verus!
