use vstd::prelude::*;

verus! {

/// The ways a stage of the training or detection pipeline can fail.
#[derive(Debug, Clone, Copy, PartialEq, Eq, Structural)]
pub enum PipelineError {
    /// A configured directory does not exist or is not a directory.
    InvalidPath,
    /// A configured directory exists but holds no regular file, or a stage was handed no sample.
    NoValidFiles,
    /// Feature vectors of differing lengths, or a vector that is neither a row nor a column.
    ShapeMismatch,
    /// The trained classifier does not reduce to one support vector with unit coefficient.
    ExtractionInvariantViolation,
    /// An image or learning primitive failed, or broke its own contract.
    CollaboratorFailure,
}

impl PipelineError {
    /// A human-readable sentence naming the error kind.
    pub fn message(&self) -> (r: &'static str)
        ensures
            r@ == match self {
                PipelineError::InvalidPath => "invalid file path."@,
                PipelineError::NoValidFiles => "no valid files in given directory."@,
                PipelineError::ShapeMismatch => "feature vectors differ in shape or length."@,
                PipelineError::ExtractionInvariantViolation =>
                    "trained classifier does not reduce to a single linear filter."@,
                PipelineError::CollaboratorFailure => "an image or learning primitive failed."@,
            },
    {
        match self {
            PipelineError::InvalidPath => "invalid file path.",
            PipelineError::NoValidFiles => "no valid files in given directory.",
            PipelineError::ShapeMismatch => "feature vectors differ in shape or length.",
            PipelineError::ExtractionInvariantViolation =>
                "trained classifier does not reduce to a single linear filter.",
            PipelineError::CollaboratorFailure => "an image or learning primitive failed.",
        }
    }
}

} // verus!
