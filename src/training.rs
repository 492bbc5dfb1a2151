use vstd::prelude::*;

use crate::matrix::filled;
use crate::schedule::{batch_range, batch_ranges, num_batches};

verus! {

/// What a gradient-descent run asks of its driver next.
#[derive(Debug, Clone, Copy, PartialEq, Eq, Structural)]
pub enum TrainingStep {
    /// Compute the gradient on rows `start..end` and hand back the updated weights.
    Batch { start: usize, end: usize },
    /// Every batch of the current epoch is done: hand back the epoch's total loss.
    EndEpoch,
    /// All epochs are done.
    Finished,
}

/// The state of one mini-batch gradient-descent run: which epoch and batch
/// come next, the current weights and the loss of each completed epoch.
pub struct GradientDescentRun<W> {
    n_rows: usize,
    batch_size: usize,
    epochs: usize,
    epoch: usize,
    next_batch: usize,
    batches: Vec<(usize, usize)>,
    cols: usize,
    weights: Vec<W>,
    losses: Vec<W>,
}

impl<W> GradientDescentRun<W> {
    pub closed spec fn spec_n_rows(&self) -> nat {
        self.n_rows as nat
    }

    pub closed spec fn spec_batch_size(&self) -> nat {
        self.batch_size as nat
    }

    /// Number of epochs the run performs.
    pub closed spec fn spec_epochs(&self) -> nat {
        self.epochs as nat
    }

    /// Number of epochs completed so far.
    pub closed spec fn spec_epoch(&self) -> nat {
        self.epoch as nat
    }

    /// Index of the next batch within the current epoch.
    pub closed spec fn spec_next_batch(&self) -> nat {
        self.next_batch as nat
    }

    /// Length of the weight vector (the augmented column count).
    pub closed spec fn spec_cols(&self) -> nat {
        self.cols as nat
    }

    pub closed spec fn spec_weights(&self) -> Seq<W> {
        self.weights@
    }

    pub closed spec fn spec_losses(&self) -> Seq<W> {
        self.losses@
    }

    /// The batch count of one epoch.
    pub open spec fn spec_num_batches(&self) -> nat {
        num_batches(self.spec_n_rows(), self.spec_batch_size())
    }

    /// The run's internal consistency.
    pub closed spec fn wf(&self) -> bool {
        &&& self.batch_size > 0
        &&& self.epoch <= self.epochs
        &&& self.next_batch <= self.batches@.len()
        &&& self.epoch == self.epochs ==> self.next_batch == 0
        &&& self.batches@.len() == num_batches(self.n_rows as nat, self.batch_size as nat)
        &&& forall|k: int|
            0 <= k < self.batches@.len() ==> (#[trigger] self.batches@[k]).0 as nat == batch_range(
                self.n_rows as nat,
                self.batch_size as nat,
                k as nat,
            ).0 && self.batches@[k].1 as nat == batch_range(
                self.n_rows as nat,
                self.batch_size as nat,
                k as nat,
            ).1
        &&& self.weights@.len() == self.cols
        &&& self.losses@.len() == self.epoch
    }

    /// The step that the run's state calls for.
    pub open spec fn spec_step(&self) -> TrainingStep {
        if self.spec_epoch() >= self.spec_epochs() {
            TrainingStep::Finished
        } else if self.spec_next_batch() < self.spec_num_batches() {
            let r = batch_range(self.spec_n_rows(), self.spec_batch_size(), self.spec_next_batch());
            TrainingStep::Batch { start: r.0 as usize, end: r.1 as usize }
        } else {
            TrainingStep::EndEpoch
        }
    }

    /// Starts a run over `n_rows` rows cut into batches of `batch_size`, for
    /// `epochs` epochs, from the weight vector of `cols` copies of `zero` and an
    /// empty loss history.
    pub fn new(n_rows: usize, cols: usize, epochs: usize, batch_size: usize, zero: W) -> (r: Self)
        where W: Copy
        requires
            batch_size > 0,
        ensures
            r.wf(),
            r.spec_n_rows() == n_rows,
            r.spec_batch_size() == batch_size,
            r.spec_epochs() == epochs,
            r.spec_epoch() == 0,
            r.spec_next_batch() == 0,
            r.spec_cols() == cols,
            r.spec_weights() == filled(cols as nat, zero),
            r.spec_losses().len() == 0,
    {
        GradientDescentRun {
            n_rows,
            batch_size,
            epochs,
            epoch: 0,
            next_batch: 0,
            batches: batch_ranges(n_rows, batch_size),
            cols,
            weights: crate::matrix::zero_vector(cols, zero),
            losses: Vec::new(),
        }
    }

    /// The step to perform next.
    pub fn next_step(&self) -> (r: TrainingStep)
        requires
            self.wf(),
        ensures
            r == self.spec_step(),
    {
        if self.epoch >= self.epochs {
            TrainingStep::Finished
        } else if self.next_batch < self.batches.len() {
            let (start, end) = self.batches[self.next_batch];
            TrainingStep::Batch { start, end }
        } else {
            TrainingStep::EndEpoch
        }
    }

    /// The current weights.
    pub fn weights(&self) -> (r: &Vec<W>)
        ensures
            r@ == self.spec_weights(),
    {
        &self.weights
    }

    /// The losses of the completed epochs, in order.
    pub fn losses(&self) -> (r: &Vec<W>)
        ensures
            r@ == self.spec_losses(),
    {
        &self.losses
    }

    /// Completes the pending batch with the weights its gradient step produced.
    pub fn apply_batch(&mut self, new_weights: Vec<W>)
        requires
            old(self).wf(),
            old(self).spec_step() is Batch,
            new_weights@.len() == old(self).spec_cols(),
        ensures
            final(self).wf(),
            final(self).spec_weights() == new_weights@,
            final(self).spec_next_batch() == old(self).spec_next_batch() + 1,
            final(self).spec_epoch() == old(self).spec_epoch(),
            final(self).spec_losses() == old(self).spec_losses(),
            final(self).spec_epochs() == old(self).spec_epochs(),
            final(self).spec_n_rows() == old(self).spec_n_rows(),
            final(self).spec_batch_size() == old(self).spec_batch_size(),
            final(self).spec_cols() == old(self).spec_cols(),
    {
        self.weights = new_weights;
        self.next_batch = self.next_batch + 1;
    }

    /// Closes the current epoch, appending its total loss to the history.
    pub fn end_epoch(&mut self, loss: W)
        requires
            old(self).wf(),
            old(self).spec_step() is EndEpoch,
        ensures
            final(self).wf(),
            final(self).spec_losses() == old(self).spec_losses().push(loss),
            final(self).spec_epoch() == old(self).spec_epoch() + 1,
            final(self).spec_next_batch() == 0,
            final(self).spec_weights() == old(self).spec_weights(),
            final(self).spec_epochs() == old(self).spec_epochs(),
            final(self).spec_n_rows() == old(self).spec_n_rows(),
            final(self).spec_batch_size() == old(self).spec_batch_size(),
            final(self).spec_cols() == old(self).spec_cols(),
    {
        self.losses.push(loss);
        self.epoch = self.epoch + 1;
        self.next_batch = 0;
    }

    /// Ends a finished run, handing back its final weights and loss history.
    pub fn finish(self) -> (r: (Vec<W>, Vec<W>))
        requires
            self.wf(),
            self.spec_step() is Finished,
        ensures
            r.0@ == self.spec_weights(),
            r.1@ == self.spec_losses(),
            r.0@.len() == self.spec_cols(),
            r.1@.len() == self.spec_epochs(),
    {
        (self.weights, self.losses)
    }

    /// A well-formed run has completed exactly as many epochs as its loss
    /// history has entries, and its weight vector keeps its length.
    pub proof fn lemma_run_invariant(&self)
        requires
            self.wf(),
        ensures
            self.spec_losses().len() == self.spec_epoch(),
            self.spec_epoch() <= self.spec_epochs(),
            self.spec_weights().len() == self.spec_cols(),
    {
    }
}

/// A run of zero epochs is finished before any batch: its weights stay the
/// zero vector it started from and its loss history stays empty.
pub proof fn lemma_zero_epochs<W>(r: GradientDescentRun<W>, zero: W)
    requires
        r.wf(),
        r.spec_epochs() == 0,
        r.spec_weights() == filled(r.spec_cols(), zero),
    ensures
        r.spec_step() == TrainingStep::Finished,
        r.spec_losses().len() == 0,
        r.spec_weights() == filled(r.spec_cols(), zero),
{
}

} // verus!
