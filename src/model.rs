use vstd::prelude::*;

use crate::error::ModelError;
use crate::matrix::{
    augment_with_bias, augmented, augmented_cols, check_fit_input, check_predict_input,
    copy_vector, filled, is_design, rows_of,
};
use crate::method::{LinearMethod, LogisticMethod};
use crate::training::{GradientDescentRun, TrainingStep};

verus! {

/// A closed-form linear regression model over scalars of type `W`: its
/// configuration and its learned weights.
///
/// Fitting is done in two calls around the solver: `prepare_fit` validates
/// and augments the design matrix, and `commit_fit` stores what the solver
/// produced (or reports why it produced nothing).
pub struct LinearRegressionRust<W> {
    method: LinearMethod,
    with_bias: bool,
    weights: Vec<W>,
}

impl<W: Copy> LinearRegressionRust<W> {
    pub closed spec fn spec_method(&self) -> LinearMethod {
        self.method
    }

    pub closed spec fn spec_with_bias(&self) -> bool {
        self.with_bias
    }

    pub closed spec fn spec_weights(&self) -> Seq<W> {
        self.weights@
    }

    /// A model with the given method and bias flag and no weights yet.
    pub fn new(method: LinearMethod, with_bias: bool) -> (r: Self)
        ensures
            r.spec_method() == method,
            r.spec_with_bias() == with_bias,
            r.spec_weights().len() == 0,
    {
        LinearRegressionRust { method, with_bias, weights: Vec::new() }
    }

    pub fn get_weights(&self) -> (r: Vec<W>)
        ensures
            r@ == self.spec_weights(),
    {
        copy_vector(&self.weights)
    }

    /// Replaces the weight vector wholesale.
    pub fn set_weights(&mut self, weights: Vec<W>)
        ensures
            final(self).spec_weights() == weights@,
            final(self).spec_method() == old(self).spec_method(),
            final(self).spec_with_bias() == old(self).spec_with_bias(),
    {
        self.weights = weights;
    }

    pub fn with_bias(&mut self, with_bias: bool)
        ensures
            final(self).spec_with_bias() == with_bias,
            final(self).spec_method() == old(self).spec_method(),
            final(self).spec_weights() == old(self).spec_weights(),
    {
        self.with_bias = with_bias;
    }

    pub fn with_method(&mut self, method: LinearMethod)
        ensures
            final(self).spec_method() == method,
            final(self).spec_with_bias() == old(self).spec_with_bias(),
            final(self).spec_weights() == old(self).spec_weights(),
    {
        self.method = method;
    }

    pub fn method(&self) -> (r: LinearMethod)
        ensures
            r == self.spec_method(),
    {
        self.method
    }

    pub fn bias_enabled(&self) -> (r: bool)
        ensures
            r == self.spec_with_bias(),
    {
        self.with_bias
    }

    /// Validates `x` against `targets_len` targets and returns the matrix the
    /// solver works on: `x` augmented with the constant feature `one` when the
    /// bias flag is set.
    pub fn prepare_fit(&self, x: &Vec<Vec<W>>, targets_len: usize, one: W) -> (r: Result<
        Vec<Vec<W>>,
        ModelError,
    >)
        ensures
            (is_design(rows_of(x)) && targets_len == x@.len()) <==> r is Ok,
            r is Ok ==> rows_of(&r->Ok_0) == augmented(rows_of(x), self.spec_with_bias(), one),
            r is Err ==> r->Err_0 == ModelError::DimensionMismatch,
    {
        check_fit_input(x, targets_len)?;
        Ok(augment_with_bias(x, self.with_bias, one))
    }

    /// Stores the solver's result for a matrix of `cols` augmented columns.
    /// No solution (the normal equation met a singular `XᵀX`) is a
    /// `SingularMatrix` failure, a solution of another length a
    /// `DimensionMismatch`; on failure the stored weights stay as they were.
    pub fn commit_fit(&mut self, cols: usize, solution: Option<Vec<W>>) -> (r: Result<
        (),
        ModelError,
    >)
        ensures
            final(self).spec_method() == old(self).spec_method(),
            final(self).spec_with_bias() == old(self).spec_with_bias(),
            match solution {
                None => r == Err::<(), ModelError>(ModelError::SingularMatrix) && final(self).spec_weights() == old(self).spec_weights(),
                Some(w) => if w@.len() == cols {
                    r is Ok && final(self).spec_weights() == w@
                } else {
                    r == Err::<(), ModelError>(ModelError::DimensionMismatch) && final(self).spec_weights() == old(self).spec_weights()
                },
            },
    {
        match solution {
            None => Err(ModelError::SingularMatrix),
            Some(w) => {
                if w.len() != cols {
                    Err(ModelError::DimensionMismatch)
                } else {
                    self.weights = w;
                    Ok(())
                }
            },
        }
    }

    /// Validates `x` against the stored weights and returns the matrix whose
    /// product with the weights is the prediction. A weight vector whose length
    /// is not the augmented column count is a `DimensionMismatch`.
    pub fn prepare_predict(&self, x: &Vec<Vec<W>>, one: W) -> (r: Result<Vec<Vec<W>>, ModelError>)
        ensures
            (is_design(rows_of(x)) && self.spec_weights().len() == augmented_cols(
                x@[0]@.len(),
                self.spec_with_bias(),
            )) <==> r is Ok,
            r is Ok ==> rows_of(&r->Ok_0) == augmented(rows_of(x), self.spec_with_bias(), one),
            r is Err ==> r->Err_0 == ModelError::DimensionMismatch,
    {
        check_predict_input(x, self.weights.len(), self.with_bias)?;
        Ok(augment_with_bias(x, self.with_bias, one))
    }
}

/// A logistic regression model trained by mini-batch gradient descent over
/// scalars of type `W`: its configuration, learned weights and the total loss
/// of each epoch of the last fit.
///
/// Fitting goes through a `GradientDescentRun`: `start_fit` validates and
/// augments the matrix and opens a run from the zero vector, the caller
/// performs the steps the run asks for, and `finish_fit` stores the outcome.
pub struct LogisticRegressionRust<W> {
    method: LogisticMethod,
    with_bias: bool,
    epochs: usize,
    batch_size: usize,
    learning_rate: W,
    losses: Vec<W>,
    weights: Vec<W>,
}

impl<W: Copy> LogisticRegressionRust<W> {
    pub closed spec fn spec_method(&self) -> LogisticMethod {
        self.method
    }

    pub closed spec fn spec_with_bias(&self) -> bool {
        self.with_bias
    }

    pub closed spec fn spec_epochs(&self) -> nat {
        self.epochs as nat
    }

    pub closed spec fn spec_batch_size(&self) -> nat {
        self.batch_size as nat
    }

    pub closed spec fn spec_learning_rate(&self) -> W {
        self.learning_rate
    }

    pub closed spec fn spec_losses(&self) -> Seq<W> {
        self.losses@
    }

    pub closed spec fn spec_weights(&self) -> Seq<W> {
        self.weights@
    }

    /// The configuration is valid: positive epoch count and batch size.
    pub open spec fn wf(&self) -> bool {
        self.spec_epochs() > 0 && self.spec_batch_size() > 0
    }

    /// A model with the given configuration, no weights and no loss history.
    /// A zero epoch count or batch size is an `InvalidConfiguration`.
    pub fn new(
        method: LogisticMethod,
        with_bias: bool,
        epochs: usize,
        batch_size: usize,
        learning_rate: W,
    ) -> (r: Result<Self, ModelError>)
        ensures
            (epochs > 0 && batch_size > 0) <==> r is Ok,
            r is Err ==> r->Err_0 == ModelError::InvalidConfiguration,
            r is Ok ==> {
                let m = r->Ok_0;
                &&& m.wf()
                &&& m.spec_method() == method
                &&& m.spec_with_bias() == with_bias
                &&& m.spec_epochs() == epochs
                &&& m.spec_batch_size() == batch_size
                &&& m.spec_learning_rate() == learning_rate
                &&& m.spec_losses().len() == 0
                &&& m.spec_weights().len() == 0
            },
    {
        if epochs == 0 || batch_size == 0 {
            return Err(ModelError::InvalidConfiguration);
        }
        Ok(
            LogisticRegressionRust {
                method,
                with_bias,
                epochs,
                batch_size,
                learning_rate,
                losses: Vec::new(),
                weights: Vec::new(),
            },
        )
    }

    pub fn get_losses(&self) -> (r: Vec<W>)
        ensures
            r@ == self.spec_losses(),
    {
        copy_vector(&self.losses)
    }

    pub fn get_weights(&self) -> (r: Vec<W>)
        ensures
            r@ == self.spec_weights(),
    {
        copy_vector(&self.weights)
    }

    /// Replaces the weight vector wholesale.
    pub fn set_weights(&mut self, weights: Vec<W>)
        ensures
            final(self).spec_weights() == weights@,
            final(self).spec_losses() == old(self).spec_losses(),
            final(self).spec_method() == old(self).spec_method(),
            final(self).spec_with_bias() == old(self).spec_with_bias(),
            final(self).spec_epochs() == old(self).spec_epochs(),
            final(self).spec_batch_size() == old(self).spec_batch_size(),
            final(self).spec_learning_rate() == old(self).spec_learning_rate(),
    {
        self.weights = weights;
    }

    pub fn with_learning_rate(&mut self, learning_rate: W)
        ensures
            final(self).spec_learning_rate() == learning_rate,
            final(self).spec_weights() == old(self).spec_weights(),
            final(self).spec_losses() == old(self).spec_losses(),
            final(self).spec_method() == old(self).spec_method(),
            final(self).spec_with_bias() == old(self).spec_with_bias(),
            final(self).spec_epochs() == old(self).spec_epochs(),
            final(self).spec_batch_size() == old(self).spec_batch_size(),
    {
        self.learning_rate = learning_rate;
    }

    pub fn with_bias(&mut self, with_bias: bool)
        ensures
            final(self).spec_with_bias() == with_bias,
            final(self).spec_weights() == old(self).spec_weights(),
            final(self).spec_losses() == old(self).spec_losses(),
            final(self).spec_method() == old(self).spec_method(),
            final(self).spec_epochs() == old(self).spec_epochs(),
            final(self).spec_batch_size() == old(self).spec_batch_size(),
            final(self).spec_learning_rate() == old(self).spec_learning_rate(),
    {
        self.with_bias = with_bias;
    }

    pub fn with_method(&mut self, method: LogisticMethod)
        ensures
            final(self).spec_method() == method,
            final(self).spec_weights() == old(self).spec_weights(),
            final(self).spec_losses() == old(self).spec_losses(),
            final(self).spec_with_bias() == old(self).spec_with_bias(),
            final(self).spec_epochs() == old(self).spec_epochs(),
            final(self).spec_batch_size() == old(self).spec_batch_size(),
            final(self).spec_learning_rate() == old(self).spec_learning_rate(),
    {
        self.method = method;
    }

    /// Sets the epoch count; zero is an `InvalidConfiguration` and changes nothing.
    pub fn with_epochs(&mut self, epochs: usize) -> (r: Result<(), ModelError>)
        ensures
            epochs > 0 <==> r is Ok,
            r is Err ==> r->Err_0 == ModelError::InvalidConfiguration,
            final(self).spec_epochs() == (if epochs > 0 { epochs as nat } else { old(self).spec_epochs() }),
            final(self).spec_weights() == old(self).spec_weights(),
            final(self).spec_losses() == old(self).spec_losses(),
            final(self).spec_method() == old(self).spec_method(),
            final(self).spec_with_bias() == old(self).spec_with_bias(),
            final(self).spec_batch_size() == old(self).spec_batch_size(),
            final(self).spec_learning_rate() == old(self).spec_learning_rate(),
    {
        if epochs == 0 {
            return Err(ModelError::InvalidConfiguration);
        }
        self.epochs = epochs;
        Ok(())
    }

    /// Sets the batch size; zero is an `InvalidConfiguration` and changes nothing.
    pub fn with_batch_size(&mut self, batch_size: usize) -> (r: Result<(), ModelError>)
        ensures
            batch_size > 0 <==> r is Ok,
            r is Err ==> r->Err_0 == ModelError::InvalidConfiguration,
            final(self).spec_batch_size() == (if batch_size > 0 { batch_size as nat } else { old(self).spec_batch_size() }),
            final(self).spec_weights() == old(self).spec_weights(),
            final(self).spec_losses() == old(self).spec_losses(),
            final(self).spec_method() == old(self).spec_method(),
            final(self).spec_with_bias() == old(self).spec_with_bias(),
            final(self).spec_epochs() == old(self).spec_epochs(),
            final(self).spec_learning_rate() == old(self).spec_learning_rate(),
    {
        if batch_size == 0 {
            return Err(ModelError::InvalidConfiguration);
        }
        self.batch_size = batch_size;
        Ok(())
    }

    pub fn method(&self) -> (r: LogisticMethod)
        ensures
            r == self.spec_method(),
    {
        self.method
    }

    pub fn bias_enabled(&self) -> (r: bool)
        ensures
            r == self.spec_with_bias(),
    {
        self.with_bias
    }

    pub fn learning_rate(&self) -> (r: W)
        ensures
            r == self.spec_learning_rate(),
    {
        self.learning_rate
    }

    /// Validates `x` against `labels_len` labels, augments it once with the
    /// constant feature `one` when the bias flag is set, and opens a run over
    /// its rows for the configured epochs and batch size, starting from the
    /// vector of `zero`s of the augmented column count. The model itself is
    /// not touched, so a failure leaves its weights as they were.
    pub fn start_fit(&self, x: &Vec<Vec<W>>, labels_len: usize, one: W, zero: W) -> (r: Result<
        (Vec<Vec<W>>, GradientDescentRun<W>),
        ModelError,
    >)
        requires
            self.wf(),
        ensures
            (is_design(rows_of(x)) && labels_len == x@.len()) <==> r is Ok,
            r is Err ==> r->Err_0 == ModelError::DimensionMismatch,
            r is Ok ==> {
                let (xa, run) = r->Ok_0;
                &&& rows_of(&xa) == augmented(rows_of(x), self.spec_with_bias(), one)
                &&& run.wf()
                &&& run.spec_n_rows() == x@.len()
                &&& run.spec_batch_size() == self.spec_batch_size()
                &&& run.spec_epochs() == self.spec_epochs()
                &&& run.spec_epoch() == 0
                &&& run.spec_next_batch() == 0
                &&& run.spec_cols() == augmented_cols(x@[0]@.len(), self.spec_with_bias())
                &&& run.spec_weights() == filled(run.spec_cols(), zero)
                &&& run.spec_losses().len() == 0
            },
    {
        let cols = check_fit_input(x, labels_len)?;
        let xa = augment_with_bias(x, self.with_bias, one);
        assert(xa@.len() == rows_of(&xa).len());
        assert(rows_of(&xa)[0].len() == augmented_cols(x@[0]@.len(), self.with_bias));
        let n_cols = xa[0].len();
        let run = GradientDescentRun::new(x.len(), n_cols, self.epochs, self.batch_size, zero);
        Ok((xa, run))
    }

    /// Stores the outcome of a finished run: its final weights and its loss
    /// history, both replacing what the model held.
    pub fn finish_fit(&mut self, run: GradientDescentRun<W>)
        requires
            run.wf(),
            run.spec_step() == TrainingStep::Finished,
        ensures
            final(self).spec_weights() == run.spec_weights(),
            final(self).spec_losses() == run.spec_losses(),
            final(self).spec_losses().len() == run.spec_epochs(),
            final(self).spec_method() == old(self).spec_method(),
            final(self).spec_with_bias() == old(self).spec_with_bias(),
            final(self).spec_epochs() == old(self).spec_epochs(),
            final(self).spec_batch_size() == old(self).spec_batch_size(),
            final(self).spec_learning_rate() == old(self).spec_learning_rate(),
    {
        let (weights, losses) = run.finish();
        self.weights = weights;
        self.losses = losses;
    }

    /// Validates `x` against the stored weights and returns the matrix whose
    /// product with the weights gives the scores that the sigmoid turns into
    /// probabilities. A weight vector whose length is not the augmented column
    /// count is a `DimensionMismatch`.
    pub fn prepare_predict(&self, x: &Vec<Vec<W>>, one: W) -> (r: Result<Vec<Vec<W>>, ModelError>)
        ensures
            (is_design(rows_of(x)) && self.spec_weights().len() == augmented_cols(
                x@[0]@.len(),
                self.spec_with_bias(),
            )) <==> r is Ok,
            r is Ok ==> rows_of(&r->Ok_0) == augmented(rows_of(x), self.spec_with_bias(), one),
            r is Err ==> r->Err_0 == ModelError::DimensionMismatch,
    {
        check_predict_input(x, self.weights.len(), self.with_bias)?;
        Ok(augment_with_bias(x, self.with_bias, one))
    }
}

} // verus!
