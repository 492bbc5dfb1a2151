use vstd::prelude::*;

verus! {

/// The kinds of failure a model operation can report.
#[derive(Debug, Clone, Copy, PartialEq, Eq, Structural)]
pub enum ModelError {
    /// Row, column or length mismatch between a matrix, its targets and the weights.
    DimensionMismatch,
    /// The normal equation met a matrix `XᵀX` that has no inverse.
    SingularMatrix,
    /// A non-positive epoch count or batch size, or an unknown method name.
    InvalidConfiguration,
    /// A logistic label outside {0, 1}.
    InvalidLabel,
}

} // verus!
