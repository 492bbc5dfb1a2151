use vstd::prelude::*;

use crate::error::ModelError;

verus! {

/// Every row of `m` has exactly `cols` entries.
pub open spec fn rows_have_len<T>(m: Seq<Seq<T>>, cols: nat) -> bool {
    forall|i: int| 0 <= i < m.len() ==> (#[trigger] m[i]).len() == cols
}

/// A design matrix: at least one row, and all rows of the first row's length.
pub open spec fn is_design<T>(m: Seq<Seq<T>>) -> bool {
    m.len() > 0 && rows_have_len(m, m[0].len())
}

/// The rows of a matrix of vectors, as sequences.
pub open spec fn rows_of<T>(x: &Vec<Vec<T>>) -> Seq<Seq<T>> {
    x@.map_values(|r: Vec<T>| r@)
}

/// The matrix with `one` appended to every row when `enabled`, else `m` itself.
pub open spec fn augmented<T>(m: Seq<Seq<T>>, enabled: bool, one: T) -> Seq<Seq<T>> {
    if enabled {
        m.map_values(|r: Seq<T>| r.push(one))
    } else {
        m
    }
}

/// Number of columns after augmentation of a matrix with `cols` columns.
pub open spec fn augmented_cols(cols: nat, enabled: bool) -> nat {
    if enabled { cols + 1 } else { cols }
}

/// A vector of `len` copies of `v`.
pub open spec fn filled<T>(len: nat, v: T) -> Seq<T> {
    Seq::new(len, |_i: int| v)
}

/// Copies `x`, appending the constant feature `one` to every row when `enabled`.
/// The caller's matrix is left as it was.
pub fn augment_with_bias<T: Copy>(x: &Vec<Vec<T>>, enabled: bool, one: T) -> (r: Vec<Vec<T>>)
    ensures
        rows_of(&r) == augmented(rows_of(x), enabled, one),
{
    let mut r: Vec<Vec<T>> = Vec::new();
    let mut i: usize = 0;
    while i < x.len()
        invariant
            i <= x@.len(),
            r@.len() == i,
            forall|k: int|
                0 <= k < i ==> (#[trigger] r@[k])@ == (if enabled {
                    x@[k]@.push(one)
                } else {
                    x@[k]@
                }),
        decreases x@.len() - i,
    {
        let row = &x[i];
        let mut out: Vec<T> = Vec::new();
        let mut j: usize = 0;
        while j < row.len()
            invariant
                j <= row@.len(),
                out@ == row@.subrange(0, j as int),
            decreases row@.len() - j,
        {
            out.push(row[j]);
            j += 1;
        }
        if enabled {
            out.push(one);
        }
        assert(row@.subrange(0, row@.len() as int) == row@);
        r.push(out);
        i += 1;
    }
    assert(rows_of(&r) =~= augmented(rows_of(x), enabled, one));
    r
}

/// Column count of a design matrix; `DimensionMismatch` when it has no rows
/// or its rows differ in length.
pub fn design_cols<T>(x: &Vec<Vec<T>>) -> (r: Result<usize, ModelError>)
    ensures
        is_design(rows_of(x)) <==> r is Ok,
        r is Ok ==> r->Ok_0 == x@[0]@.len(),
        r is Err ==> r->Err_0 == ModelError::DimensionMismatch,
{
    if x.len() == 0 {
        return Err(ModelError::DimensionMismatch);
    }
    let cols = x[0].len();
    let mut i: usize = 1;
    while i < x.len()
        invariant
            1 <= i <= x@.len(),
            cols == x@[0]@.len(),
            forall|k: int| 0 <= k < i ==> (#[trigger] x@[k])@.len() == cols,
        decreases x@.len() - i,
    {
        if x[i].len() != cols {
            assert(rows_of(x)[i as int].len() != rows_of(x)[0].len());
            return Err(ModelError::DimensionMismatch);
        }
        i += 1;
    }
    assert(rows_have_len(rows_of(x), rows_of(x)[0].len()));
    Ok(cols)
}

/// Validates a matrix and its target vector for fitting: the matrix is a design
/// matrix with one target per row. Returns the column count before augmentation.
pub fn check_fit_input<T>(x: &Vec<Vec<T>>, targets_len: usize) -> (r: Result<usize, ModelError>)
    ensures
        (is_design(rows_of(x)) && targets_len == x@.len()) <==> r is Ok,
        r is Ok ==> r->Ok_0 == x@[0]@.len(),
        r is Err ==> r->Err_0 == ModelError::DimensionMismatch,
{
    let cols = design_cols(x)?;
    if targets_len != x.len() {
        return Err(ModelError::DimensionMismatch);
    }
    Ok(cols)
}

/// Validates a matrix against a weight vector of `weights_len` entries for
/// prediction: the weights must match the augmented column count exactly.
pub fn check_predict_input<T>(x: &Vec<Vec<T>>, weights_len: usize, with_bias: bool) -> (r: Result<
    usize,
    ModelError,
>)
    ensures
        (is_design(rows_of(x)) && weights_len == augmented_cols(x@[0]@.len(), with_bias)) <==> r is Ok,
        r is Ok ==> r->Ok_0 == x@[0]@.len(),
        r is Err ==> r->Err_0 == ModelError::DimensionMismatch,
{
    let cols = design_cols(x)?;
    if with_bias {
        if cols >= usize::MAX || weights_len != cols + 1 {
            return Err(ModelError::DimensionMismatch);
        }
    } else if weights_len != cols {
        return Err(ModelError::DimensionMismatch);
    }
    Ok(cols)
}

/// Bias augmentation with `enabled == false` is the identity, while with
/// `enabled == true` it adds one more column each time it is applied, so it is
/// not idempotent.
pub proof fn lemma_augment_with_bias_laws<T>(m: Seq<Seq<T>>, one: T)
    requires
        is_design(m),
    ensures
        augmented(m, false, one) == m,
        is_design(augmented(m, true, one)),
        augmented(m, true, one)[0].len() == m[0].len() + 1,
        augmented(augmented(m, true, one), true, one)[0].len() == m[0].len() + 2,
        augmented(augmented(m, true, one), false, one) == augmented(m, true, one),
        augmented(augmented(m, true, one), true, one) != augmented(m, true, one),
{
    let a = augmented(m, true, one);
    assert(rows_have_len(a, a[0].len())) by {
        assert forall|i: int| 0 <= i < a.len() implies (#[trigger] a[i]).len() == a[0].len() by {
            assert(m[i].len() == m[0].len());
        }
    }
    let b = augmented(a, true, one);
    assert(b[0].len() != a[0].len());
}

/// A copy of `v`.
pub fn copy_vector<T: Copy>(v: &Vec<T>) -> (r: Vec<T>)
    ensures
        r@ == v@,
{
    let mut r: Vec<T> = Vec::new();
    let mut i: usize = 0;
    while i < v.len()
        invariant
            i <= v@.len(),
            r@ == v@.subrange(0, i as int),
        decreases v@.len() - i,
    {
        r.push(v[i]);
        i += 1;
    }
    assert(v@.subrange(0, v@.len() as int) == v@);
    r
}

/// A vector of `length` copies of `zero`: the starting point of gradient descent.
pub fn zero_vector<T: Copy>(length: usize, zero: T) -> (r: Vec<T>)
    ensures
        r@ == filled(length as nat, zero),
{
    let mut r: Vec<T> = Vec::new();
    while r.len() < length
        invariant
            r@.len() <= length,
            r@ == filled(r@.len(), zero),
        decreases length - r@.len(),
    {
        r.push(zero);
        assert(r@ =~= filled(r@.len(), zero));
    }
    r
}

} // verus!
