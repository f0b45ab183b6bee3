//! The arithmetic of one training step: the loss of a batch and its gradients
//! with respect to all parameters.

use vstd::prelude::*;
use crate::batch::{Batch, BatchView, Fitness};
use crate::config::Hyperparameters;
use crate::error::Error;
use crate::loss::{cross_entropy, loss_gradient_of, loss_upto, targets_checked, Loss};
use crate::model::{parameters_of, MetaFormerModel};
use crate::number::{plus, zero, Number, Term, Traced};
use crate::parameters::{all_filled_of, sums_of, Parameters};
use crate::pass::{gradients_of, passed_of};
use crate::tokens::{common_length, sequence_checked};

verus! {

/// The loss of a batch and its gradients.
pub struct Computed<N> {
    /// The mean, over all positions of all sequences, of the cross-entropy
    /// between what the model gives and what it should give.
    pub loss: Traced<N>,
    /// The gradient of the loss with respect to each parameter.
    pub gradients: Parameters<N>,
}

/// The loss of a batch and its gradients, as terms.
pub struct Outcome {
    pub loss: Term,
    pub gradients: Seq<Seq<Seq<Term>>>,
}

/// Why no step can be computed, if anything: the parameters are those of a
/// model with other hyperparameters (`ShapeError`); or else the batch is
/// malformed (with its error) or undersized (`ShapeError`).
pub open spec fn step_refused(
    hp: Hyperparameters,
    of_parameters: Hyperparameters,
    batch: BatchView,
) -> Option<Error> {
    if of_parameters != hp {
        Some(Error::ShapeError)
    } else {
        match batch.checked(hp) {
            Err(e) => Some(e),
            Ok(Fitness::Undersized) => Some(Error::ShapeError),
            Ok(Fitness::Fit) => None,
        }
    }
}

/// The number of positions of a fit batch: its pairs times their length.
pub open spec fn positions_of(batch: BatchView) -> u64 {
    (batch.inputs.len() * common_length(batch.inputs)) as u64
}

/// The loss and the gradients of the first `upto` pairs of a batch: for each
/// pair the forward pass, the cross-entropy against the targets divided by the
/// number of positions of the batch, and the backward pass; the losses added
/// up from zero and the gradients from zeros, from the first pair on.
pub open spec fn computed_upto(
    hp: Hyperparameters,
    parameters: Seq<Seq<Seq<Term>>>,
    batch: BatchView,
    upto: nat,
) -> Outcome
    decreases upto,
{
    if upto == 0 {
        Outcome { loss: zero(), gradients: all_filled_of(parameters_of(hp), Term::Count(0)) }
    } else {
        let before = computed_upto(hp, parameters, batch, (upto - 1) as nat);
        let passed = passed_of(hp, parameters, batch.inputs[upto - 1]);
        let targets = batch.targets[upto - 1];
        Outcome {
            loss: plus(
                before.loss,
                loss_upto(passed.logits, targets, positions_of(batch), targets.len()),
            ),
            gradients: sums_of(
                before.gradients,
                gradients_of(
                    hp,
                    parameters,
                    batch.inputs[upto - 1],
                    passed,
                    loss_gradient_of(passed.logits, targets, positions_of(batch)),
                ),
            ),
        }
    }
}

/// The loss and the gradients of a batch.
pub open spec fn computed_of(
    hp: Hyperparameters,
    parameters: Seq<Seq<Seq<Term>>>,
    batch: BatchView,
) -> Outcome {
    computed_upto(hp, parameters, batch, batch.inputs.len())
}

/// Every pair of a fit batch can be passed through the model and scored.
pub proof fn lemma_fit_pairs_pass(batch: BatchView, hp: Hyperparameters, i: int)
    requires
        batch.checked(hp) == Ok::<Fitness, Error>(Fitness::Fit),
        0 <= i < batch.inputs.len(),
    ensures
        sequence_checked(batch.inputs[i], hp.context_window, hp.input_vocabolary) == Ok::<
            (),
            Error,
        >(()),
        batch.inputs[i].len() == common_length(batch.inputs),
        targets_checked(
            batch.targets[i],
            batch.inputs[i].len(),
            hp.output_vocabolary as nat,
        ) == Ok::<(), Error>(()),
{
}

impl<N> Computed<N> {
    /// The loss and the gradients as terms.
    pub open spec fn terms(&self) -> Outcome {
        Outcome { loss: self.loss@, gradients: self.gradients.terms() }
    }
}

impl MetaFormerModel {
    /// Computes a step on a fit batch: for each pair the forward pass, the
    /// loss, and the backward pass; the losses and the gradients summed.
    pub fn compute<N: Number>(&self, parameters: &Parameters<N>, batch: &Batch) -> (r: Result<
        Computed<N>,
        Error,
    >)
        ensures
            match step_refused(self@, parameters@, batch@) {
                Some(error) => r matches Err(e) && e == error,
                None => r matches Ok(computed) && computed.gradients@ == self@ && computed.terms()
                    == computed_of(self@, parameters.terms(), batch@),
            },
    {
        let hp = self.hyperparameters();
        if parameters.hyperparameters() != hp {
            return Err(Error::ShapeError);
        }
        match batch.check(&hp) {
            Err(e) => {
                return Err(e);
            },
            Ok(Fitness::Undersized) => {
                return Err(Error::ShapeError);
            },
            Ok(Fitness::Fit) => {},
        }
        let pairs = batch.inputs.len();
        let length = batch.sequence_length();
        proof {
            assert(pairs * length <= 0xFFFF_FFFF * 0xFFFF_FFFF) by (nonlinear_arith)
                requires
                    0 <= pairs <= 0xFFFF_FFFF,
                    0 <= length <= 0xFFFF_FFFF,
            ;
        }
        let count: u64 = (pairs as u64) * (length as u64);
        let ghost all = parameters.terms();
        let mut loss = Traced::<N>::from_count(0);
        let mut gradients = parameters.zeroed();
        let mut i: usize = 0;
        while i < pairs
            invariant
                i <= pairs,
                hp == self@,
                parameters@ == hp,
                all == parameters.terms(),
                gradients@ == hp,
                pairs == batch.inputs@.len(),
                pairs == batch.targets@.len(),
                count == positions_of(batch@),
                batch@.checked(hp) == Ok::<Fitness, Error>(Fitness::Fit),
                computed_upto(hp, all, batch@, i as nat) == (Outcome {
                    loss: loss@,
                    gradients: gradients.terms(),
                }),
            decreases pairs - i,
        {
            proof {
                lemma_fit_pairs_pass(batch@, hp, i as int);
            }
            let pass = match self.forward(parameters, &batch.inputs[i]) {
                Ok(pass) => pass,
                Err(e) => {
                    return Err(e);
                },
            };
            let Loss { value, gradient } = match cross_entropy(
                pass.logits(),
                &batch.targets[i],
                count,
            ) {
                Ok(scored) => scored,
                Err(e) => {
                    return Err(e);
                },
            };
            let of_pair = match pass.backward(parameters, &gradient) {
                Ok(of_pair) => of_pair,
                Err(e) => {
                    return Err(e);
                },
            };
            gradients = match gradients.plus(&of_pair) {
                Ok(total) => total,
                Err(e) => {
                    return Err(e);
                },
            };
            loss = loss.plus(&value);
            i = i + 1;
        }
        Ok(Computed { loss, gradients })
    }
}

} // verus!
