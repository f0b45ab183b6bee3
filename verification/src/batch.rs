//! Batches: pairs of input and target sequences, and the test that tells
//! whether a batch is fit for a training step.
//!
//! A batch must hold exactly as many pairs as the hyperparameters say. The one
//! exception is a batch with fewer pairs, as a data source gives when it runs
//! out in the middle of a batch: such a batch is dropped, not padded.

use vstd::prelude::*;
use crate::config::Hyperparameters;
use crate::error::Error;
use crate::tokens::{
    all_of_length, common_length, first_length, group_in_vocabulary, group_tokens_in_vocabulary,
    has_length, sequences_of, uniform,
};

verus! {

/// A group of input sequences and, for each, the sequence of tokens that the
/// model should give.
#[derive(Debug, Clone)]
pub struct Batch {
    /// The sequences that the model reads.
    pub inputs: Vec<Vec<i64>>,
    /// The sequences that the model should write, in the same order.
    pub targets: Vec<Vec<i64>>,
}

/// A batch as mathematical sequences.
pub struct BatchView {
    pub inputs: Seq<Seq<i64>>,
    pub targets: Seq<Seq<i64>>,
}

impl View for Batch {
    type V = BatchView;

    open spec fn view(&self) -> BatchView {
        BatchView { inputs: sequences_of(self.inputs@), targets: sequences_of(self.targets@) }
    }
}

/// What to do with a batch that is not malformed.
#[derive(Debug, Clone, Copy, PartialEq, Eq, Structural)]
pub enum Fitness {
    /// The batch is full and every sequence in it can be used: train on it.
    Fit,
    /// The batch holds fewer pairs than a batch must: drop it.
    Undersized,
}

impl BatchView {
    /// Whether the batch has one target for each input, and no more pairs than
    /// a batch may hold.
    pub open spec fn paired(&self, hp: Hyperparameters) -> bool {
        self.inputs.len() == self.targets.len() && self.inputs.len() <= hp.batch_size
    }

    /// Whether all sequences of the batch, inputs and targets alike, have one
    /// length, and that length fits the context window.
    pub open spec fn rectangular(&self, hp: Hyperparameters) -> bool {
        &&& uniform(self.inputs)
        &&& all_of_length(self.targets, common_length(self.inputs))
        &&& common_length(self.inputs) <= hp.context_window
    }

    /// Whether every input id lies in the input vocabulary and every target id
    /// in the output vocabulary.
    pub open spec fn in_range(&self, hp: Hyperparameters) -> bool {
        group_in_vocabulary(self.inputs, hp.input_vocabolary) && group_in_vocabulary(
            self.targets,
            hp.output_vocabolary,
        )
    }

    /// The verdict on a batch. A batch whose inputs and targets differ in
    /// number, or which holds too many pairs, is a `ShapeError`. A batch with
    /// too few pairs is undersized, whatever it holds. A full batch is a
    /// `ShapeError` unless it is rectangular, else a `RangeError` unless its
    /// ids are in range, else fit.
    pub open spec fn checked(&self, hp: Hyperparameters) -> Result<Fitness, Error> {
        if !self.paired(hp) {
            Err(Error::ShapeError)
        } else if self.inputs.len() < hp.batch_size {
            Ok(Fitness::Undersized)
        } else if !self.rectangular(hp) {
            Err(Error::ShapeError)
        } else if !self.in_range(hp) {
            Err(Error::RangeError)
        } else {
            Ok(Fitness::Fit)
        }
    }
}

impl Batch {
    /// A batch of the given inputs and targets.
    pub fn new(inputs: Vec<Vec<i64>>, targets: Vec<Vec<i64>>) -> (r: Batch)
        ensures
            r.inputs == inputs,
            r.targets == targets,
    {
        Batch { inputs, targets }
    }

    /// Number of pairs in the batch, counted by its inputs.
    pub fn len(&self) -> (r: usize)
        ensures
            r == self@.inputs.len(),
    {
        self.inputs.len()
    }

    /// The length that the sequences of a fit batch share.
    pub fn sequence_length(&self) -> (r: usize)
        ensures
            r == common_length(self@.inputs),
    {
        first_length(&self.inputs)
    }

    /// Tests the batch against the hyperparameters.
    pub fn check(&self, hp: &Hyperparameters) -> (r: Result<Fitness, Error>)
        ensures
            r == self@.checked(*hp),
    {
        let count = self.inputs.len();
        if count != self.targets.len() || count > hp.batch_size as usize {
            return Err(Error::ShapeError);
        }
        if count < hp.batch_size as usize {
            return Ok(Fitness::Undersized);
        }
        let length = first_length(&self.inputs);
        if !has_length(&self.inputs, length) || !has_length(&self.targets, length) || length
            > hp.context_window as usize {
            return Err(Error::ShapeError);
        }
        if !group_tokens_in_vocabulary(&self.inputs, hp.input_vocabolary)
            || !group_tokens_in_vocabulary(&self.targets, hp.output_vocabolary) {
            return Err(Error::RangeError);
        }
        Ok(Fitness::Fit)
    }
}

/// A fit batch holds exactly as many pairs as a batch must, its sequences are
/// no longer than the context window, and the model takes its inputs.
pub proof fn law_fit_batch_is_full_and_usable(batch: BatchView, hp: Hyperparameters)
    requires
        batch.checked(hp) == Ok::<Fitness, Error>(Fitness::Fit),
    ensures
        batch.inputs.len() == hp.batch_size,
        batch.targets.len() == hp.batch_size,
        common_length(batch.inputs) <= hp.context_window,
        crate::model::forward_group_of(hp, batch.inputs) == Ok::<
            crate::shape::ActivationShape,
            Error,
        >(
            crate::shape::ActivationShape {
                batch: hp.batch_size as u64,
                sequence: common_length(batch.inputs) as u64,
                width: hp.output_vocabolary as u64,
            },
        ),
{
}

} // verus!
