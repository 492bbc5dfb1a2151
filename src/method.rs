use vstd::prelude::*;

use vstd::string::StringSliceAdditionalSpecFns;

use crate::error::ModelError;

verus! {

/// How a linear model finds its weights.
#[derive(Debug, Clone, Copy, PartialEq, Eq, Structural)]
pub enum LinearMethod {
    /// Minimum-norm least squares through a singular value decomposition.
    LeastSquares,
    /// The normal equation `w = (XᵀX)⁻¹ Xᵀy`, by explicit inversion.
    NormalEquation,
}

/// How a logistic model finds its weights.
#[derive(Debug, Clone, Copy, PartialEq, Eq, Structural)]
pub enum LogisticMethod {
    /// Mini-batch gradient descent.
    GradientDescent,
}

/// The bytes of "ls".
pub open spec fn name_ls() -> Seq<u8> {
    seq![108u8, 115u8]
}

/// The bytes of "least_squares".
pub open spec fn name_least_squares() -> Seq<u8> {
    seq![108u8, 101u8, 97u8, 115u8, 116u8, 95u8, 115u8, 113u8, 117u8, 97u8, 114u8, 101u8, 115u8]
}

/// The bytes of "normal".
pub open spec fn name_normal() -> Seq<u8> {
    seq![110u8, 111u8, 114u8, 109u8, 97u8, 108u8]
}

/// The bytes of "gd".
pub open spec fn name_gd() -> Seq<u8> {
    seq![103u8, 100u8]
}

/// The linear method a name selects, if any.
pub open spec fn linear_method_named(b: Seq<u8>) -> Option<LinearMethod> {
    if b == name_ls() || b == name_least_squares() {
        Some(LinearMethod::LeastSquares)
    } else if b == name_normal() {
        Some(LinearMethod::NormalEquation)
    } else {
        None
    }
}

/// The logistic method a name selects, if any.
pub open spec fn logistic_method_named(b: Seq<u8>) -> Option<LogisticMethod> {
    if b == name_gd() {
        Some(LogisticMethod::GradientDescent)
    } else {
        None
    }
}

fn bytes_equal(a: &[u8], b: &[u8]) -> (r: bool)
    ensures
        r == (a@ == b@),
{
    if a.len() != b.len() {
        return false;
    }
    let mut i: usize = 0;
    while i < a.len()
        invariant
            a@.len() == b@.len(),
            i <= a@.len(),
            a@.subrange(0, i as int) == b@.subrange(0, i as int),
        decreases a@.len() - i,
    {
        if a[i] != b[i] {
            assert(a@.subrange(0, i + 1)[i as int] != b@.subrange(0, i + 1)[i as int]);
            return false;
        }
        assert(a@.subrange(0, i + 1) =~= a@.subrange(0, i as int).push(a@[i as int]));
        assert(b@.subrange(0, i + 1) =~= b@.subrange(0, i as int).push(b@[i as int]));
        i += 1;
    }
    assert(a@ =~= a@.subrange(0, i as int));
    assert(b@ =~= b@.subrange(0, i as int));
    true
}

impl LinearMethod {
    /// Selects a linear method by name: "ls" or "least_squares" for least
    /// squares, "normal" for the normal equation. Any other name is an
    /// `InvalidConfiguration`.
    pub fn from_name(name: &str) -> (r: Result<LinearMethod, ModelError>)
        ensures
            match linear_method_named(name.spec_bytes()) {
                Some(m) => r == Ok::<LinearMethod, ModelError>(m),
                None => r == Err::<LinearMethod, ModelError>(ModelError::InvalidConfiguration),
            },
    {
        let b = name.as_bytes();
        let ls: [u8; 2] = [108, 115];
        let least_squares: [u8; 13] = [108, 101, 97, 115, 116, 95, 115, 113, 117, 97, 114, 101, 115];
        let normal: [u8; 6] = [110, 111, 114, 109, 97, 108];
        assert(ls@ == name_ls());
        assert(least_squares@ == name_least_squares());
        assert(normal@ == name_normal());
        if bytes_equal(b, ls.as_slice()) || bytes_equal(b, least_squares.as_slice()) {
            Ok(LinearMethod::LeastSquares)
        } else if bytes_equal(b, normal.as_slice()) {
            Ok(LinearMethod::NormalEquation)
        } else {
            Err(ModelError::InvalidConfiguration)
        }
    }
}

impl LogisticMethod {
    /// Selects a logistic method by name: "gd" for gradient descent. Any other
    /// name is an `InvalidConfiguration`.
    pub fn from_name(name: &str) -> (r: Result<LogisticMethod, ModelError>)
        ensures
            match logistic_method_named(name.spec_bytes()) {
                Some(m) => r == Ok::<LogisticMethod, ModelError>(m),
                None => r == Err::<LogisticMethod, ModelError>(ModelError::InvalidConfiguration),
            },
    {
        let gd: [u8; 2] = [103, 100];
        assert(gd@ == name_gd());
        if bytes_equal(name.as_bytes(), gd.as_slice()) {
            Ok(LogisticMethod::GradientDescent)
        } else {
            Err(ModelError::InvalidConfiguration)
        }
    }
}

} // verus!
