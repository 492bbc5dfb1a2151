use vstd::prelude::*;

verus! {

/// Number of consecutive batches of size `b` that cover `n` rows (the last
/// one may be shorter).
pub open spec fn num_batches(n: nat, b: nat) -> nat
    recommends
        b > 0,
{
    if n == 0 {
        0
    } else {
        ((n - 1) as nat / b + 1) as nat
    }
}

/// The half-open row range of batch `k` when `n` rows are cut into batches of `b`.
pub open spec fn batch_range(n: nat, b: nat, k: nat) -> (nat, nat) {
    (k * b, if (k + 1) * b <= n { (k + 1) * b } else { n })
}

proof fn lemma_batch_count(n: nat, b: nat, k: nat)
    requires
        b > 0,
        k > 0,
        (k - 1) * b < n,
        n <= k * b,
    ensures
        num_batches(n, b) == k,
{
    let q = (n - 1) as nat / b;
    let r = (n - 1) as nat % b;
    assert((n - 1) as nat == q * b + r && r < b) by (nonlinear_arith)
        requires b > 0, q == (n - 1) as nat / b, r == (n - 1) as nat % b;
    assert(q == k - 1) by (nonlinear_arith)
        requires
            (n - 1) as nat == q * b + r, 0 <= r < b, (k - 1) * b <= n - 1, n - 1 < k * b, k > 0,
    ;
}

/// Cuts `n_rows` rows into consecutive batches of `batch_size` rows, in
/// order; the final batch holds what is left and may be shorter.
pub fn batch_ranges(n_rows: usize, batch_size: usize) -> (r: Vec<(usize, usize)>)
    requires
        batch_size > 0,
    ensures
        r@.len() == num_batches(n_rows as nat, batch_size as nat),
        forall|k: int|
            0 <= k < r@.len() ==> (#[trigger] r@[k]).0 as nat == batch_range(
                n_rows as nat,
                batch_size as nat,
                k as nat,
            ).0 && r@[k].1 as nat == batch_range(n_rows as nat, batch_size as nat, k as nat).1,
        forall|k: int| 0 <= k < r@.len() ==> (#[trigger] r@[k]).0 < r@[k].1 <= n_rows,
{
    let mut r: Vec<(usize, usize)> = Vec::new();
    let mut start: usize = 0;
    assert(r@.len() * batch_size == 0) by (nonlinear_arith)
        requires r@.len() == 0;
    while start < n_rows
        invariant
            batch_size > 0,
            start as nat == r@.len() * batch_size,
            r@.len() > 0 ==> (r@.len() - 1) * batch_size < n_rows,
            start <= n_rows || (r@.len() > 0 && r@[r@.len() - 1].1 == n_rows),
            forall|k: int|
                0 <= k < r@.len() ==> (#[trigger] r@[k]).0 as nat == batch_range(
                    n_rows as nat,
                    batch_size as nat,
                    k as nat,
                ).0 && r@[k].1 as nat == batch_range(n_rows as nat, batch_size as nat, k as nat).1,
            forall|k: int| 0 <= k < r@.len() ==> (#[trigger] r@[k]).0 < r@[k].1 <= n_rows,
        decreases n_rows - start,
    {
        let end: usize = if batch_size <= n_rows - start {
            start + batch_size
        } else {
            n_rows
        };
        let ghost k = r@.len();
        assert((k + 1) * batch_size == k * batch_size + batch_size) by (nonlinear_arith);
        r.push((start, end));
        if end == n_rows {
            proof {
                lemma_batch_count(n_rows as nat, batch_size as nat, r@.len());
            }
            return r;
        }
        start = end;
    }
    proof {
        if r@.len() > 0 {
            lemma_batch_count(n_rows as nat, batch_size as nat, r@.len());
        }
    }
    r
}

} // verus!
