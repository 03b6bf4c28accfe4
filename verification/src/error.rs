use vstd::prelude::*;

verus! {

/// The failure taxonomy of the library.  Every fallible operation reports
/// one of these kinds, usually with diagnostic text captured from the
/// external tool.
#[derive(Debug)]
pub enum NixError {
    /// The project reference could not be resolved to a directory.
    ProjectNotFound(String),
    /// The resolved project directory lacks the entry file.
    FileNotFound,
    /// The requested attribute path is absent from the project.
    AttributeNotFound(String),
    /// The external evaluator exited nonzero, or its output failed to parse
    /// as the requested structured value.
    EvaluationFailure(String),
    /// An evaluated value had an unexpected shape (e.g. non-boolean where a
    /// boolean was expected).
    TypeMismatch(String),
    /// A store operation (hashing, registration, realisation) exited nonzero.
    StoreOperationFailure(String),
    /// The external builder exited nonzero.
    BuildFailure(String),
}

impl NixError {
    /// A short label naming the error kind, for diagnostics.
    pub fn kind_label(&self) -> (r: &'static str)
        ensures
            r@ == self.kind_label_spec(),
    {
        match self {
            NixError::ProjectNotFound(_) => "project not found",
            NixError::FileNotFound => "file not found",
            NixError::AttributeNotFound(_) => "attribute not found",
            NixError::EvaluationFailure(_) => "evaluation failed",
            NixError::TypeMismatch(_) => "type mismatch",
            NixError::StoreOperationFailure(_) => "store operation failed",
            NixError::BuildFailure(_) => "build failed",
        }
    }

    pub open spec fn kind_label_spec(&self) -> Seq<char> {
        match self {
            NixError::ProjectNotFound(_) => "project not found"@,
            NixError::FileNotFound => "file not found"@,
            NixError::AttributeNotFound(_) => "attribute not found"@,
            NixError::EvaluationFailure(_) => "evaluation failed"@,
            NixError::TypeMismatch(_) => "type mismatch"@,
            NixError::StoreOperationFailure(_) => "store operation failed"@,
            NixError::BuildFailure(_) => "build failed"@,
        }
    }
}

} // verus!
