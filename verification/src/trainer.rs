//! A training loop together with the numbers that it trains: the parameters of
//! the model, and what the optimizer keeps of the gradients.

use vstd::prelude::*;
use crate::batch::{Batch, Fitness};
use crate::binary64::{finite, Binary64};
use crate::error::Error;
use crate::model::{parameters_of, MetaFormerModel};
use crate::number::{Number, Term};
use crate::parameters::{
    all_filled_of, descended_of, indexable, initial_of, sums_of, Parameters,
};
use crate::step::computed_of;
use crate::training::{Action, Event, LoopView, Phase, Progress, State, TrainingLoop};

verus! {

/// A run of training and its numbers.
pub struct Trainer<N> {
    pub(crate) run: TrainingLoop,
    pub(crate) parameters: Parameters<N>,
    pub(crate) accumulated: Parameters<N>,
}

impl<N> Trainer<N> {
    #[verifier::type_invariant]
    pub(crate) closed spec fn inv(&self) -> bool {
        &&& self.parameters@ == self.run@.hyperparameters
        &&& self.accumulated@ == self.run@.hyperparameters
    }

    /// The parameters as they stand.
    pub closed spec fn numbers(&self) -> Parameters<N> {
        self.parameters
    }

    /// The sum of the gradients of all steps taken so far.
    pub closed spec fn gathered(&self) -> Parameters<N> {
        self.accumulated
    }
}

impl<N> View for Trainer<N> {
    type V = LoopView;

    /// The hyperparameters of the model under training, and how far the run
    /// has come.
    closed spec fn view(&self) -> LoopView {
        self.run@
    }
}

/// The progress after a step that went to its end: one more step counted, and
/// its loss kept.
pub open spec fn stepped(before: Progress, after: Progress) -> bool {
    &&& after.state == State::Running
    &&& after.phase == Phase::Boundary
    &&& !after.stop_requested
    &&& after.steps == before.counted().steps
    &&& after.device == before.device
    &&& after.last_loss matches Some(loss) && finite(loss.bits)
}

impl<N: Number> Trainer<N> {
    /// A trainer for the model, its parameters drawn from the seed; nothing
    /// where the machine cannot index the widest tensor of the model.
    pub fn new(model: MetaFormerModel, seed: u64) -> (r: Option<Trainer<N>>)
        ensures
            indexable(model@) ==> (r matches Some(trainer) && trainer@.hyperparameters == model@
                && trainer@.progress == Progress::fresh() && trainer.numbers().terms()
                == initial_of(model@, seed) && trainer.gathered().terms() == all_filled_of(
                parameters_of(model@),
                Term::Count(0),
            )),
            !indexable(model@) ==> r is None,
    {
        let parameters = match Parameters::initialise(&model, seed) {
            Some(parameters) => parameters,
            None => {
                return None;
            },
        };
        let accumulated = parameters.zeroed();
        Some(Trainer { run: TrainingLoop::new(model), parameters, accumulated })
    }

    /// A trainer for the model that starts from the given parameters.
    /// `ShapeError` where they are those of a model with other
    /// hyperparameters.
    pub fn resume(model: MetaFormerModel, parameters: Parameters<N>) -> (r: Result<
        Trainer<N>,
        Error,
    >)
        ensures
            parameters@ == model@ ==> (r matches Ok(trainer) && trainer@.hyperparameters == model@
                && trainer@.progress == Progress::fresh() && trainer.numbers() == parameters),
            parameters@ != model@ ==> (r matches Err(e) && e == Error::ShapeError),
    {
        if parameters.hyperparameters() != model.hyperparameters() {
            return Err(Error::ShapeError);
        }
        let accumulated = parameters.zeroed();
        Ok(Trainer { run: TrainingLoop::new(model), parameters, accumulated })
    }

    /// The training loop.
    pub fn run(&self) -> (r: &TrainingLoop)
        ensures
            r@ == self@,
    {
        &self.run
    }

    /// The parameters as they stand.
    pub fn parameters(&self) -> (r: &Parameters<N>)
        ensures
            *r == self.numbers(),
            r@ == self@.hyperparameters,
    {
        proof {
            use_type_invariant(self);
        }
        &self.parameters
    }

    /// The sum of the gradients of all steps taken so far, one entry for each
    /// entry of the parameters.
    pub fn accumulated(&self) -> (r: &Parameters<N>)
        ensures
            *r == self.gathered(),
            r@ == self@.hyperparameters,
    {
        proof {
            use_type_invariant(self);
        }
        &self.accumulated
    }

    /// What the loop waits for.
    pub fn awaited(&self) -> (r: Action)
        ensures
            r == self@.progress.awaited(),
    {
        self.run.awaited()
    }

    /// The trainer after an event. The parameters stay as they are.
    pub fn advance(self, event: Event) -> (r: Trainer<N>)
        ensures
            r@.hyperparameters == self@.hyperparameters,
            r@.progress == self@.progress.next(self@.hyperparameters, event),
            r.numbers() == self.numbers(),
    {
        proof {
            use_type_invariant(&self);
        }
        let Trainer { mut run, parameters, accumulated } = self;
        run.advance(event);
        Trainer { run, parameters, accumulated }
    }

    /// The trainer after a batch from the data source. If the loop waits for
    /// a batch and the batch is fit, it is trained on: the loss and the
    /// gradients are computed, and, where all of them are finite, the
    /// parameters are updated.
    ///
    /// A loop that waits for no batch is left as it is. A batch that is not
    /// fit is taken as the loop takes it: dropped if undersized, the end of the
    /// run if malformed. A step on a fit batch either goes to its end, and is
    /// counted, or fails the run with `NumericalInstabilityError` and leaves
    /// the parameters as they were.
    pub fn train(self, batch: &Batch) -> (r: Trainer<N>)
        ensures
            r@.hyperparameters == self@.hyperparameters,
            ({
                let hp = self@.hyperparameters;
                let before = self@.progress;
                let after = r@.progress;
                let verdict = batch@.checked(hp);
                let untouched = r.numbers() == self.numbers();
                if before.awaited() != Action::DrawBatch {
                    after == before && untouched
                } else if verdict != Ok::<Fitness, Error>(Fitness::Fit) {
                    after == before.next(hp, Event::BatchDrawn(verdict)) && untouched
                } else {
                    (stepped(before, after) && r.numbers().terms() == descended_of(
                        self.numbers().terms(),
                        computed_of(hp, self.numbers().terms(), batch@).gradients,
                        hp.learning_rate,
                    ) && r.gathered().terms() == sums_of(
                        self.gathered().terms(),
                        computed_of(hp, self.numbers().terms(), batch@).gradients,
                    )) || (after.state == State::Failed(Error::NumericalInstabilityError)
                        && after.steps == before.steps && untouched)
                }
            }),
    {
        proof {
            use_type_invariant(&self);
        }
        let Trainer { mut run, mut parameters, accumulated } = self;
        let before = run.progress();
        if run.awaited() != Action::DrawBatch {
            return Trainer { run, parameters, accumulated };
        }
        let hp = run.model().hyperparameters();
        if run.draw(batch) != Action::RunStep {
            return Trainer { run, parameters, accumulated };
        }
        let computed = match run.model().compute(&parameters, batch) {
            Ok(computed) => computed,
            Err(_) => vstd::pervasive::unreached(),
        };
        let loss = Binary64::from_bits(computed.loss.to_bits());
        let bits = computed.gradients.bits();
        if run.report(loss, &bits) != Action::ApplyUpdate {
            return Trainer { run, parameters, accumulated };
        }
        match parameters.descend(&computed.gradients, hp.learning_rate) {
            Ok(()) => {},
            Err(_) => vstd::pervasive::unreached(),
        }
        let accumulated = match accumulated.plus(&computed.gradients) {
            Ok(total) => total,
            Err(_) => vstd::pervasive::unreached(),
        };
        run.advance(Event::Updated);
        Trainer { run, parameters, accumulated }
    }
}

} // verus!
