//! The training loop as a state machine.
//!
//! The loop itself does no input, no output and no arithmetic on tensors. Its
//! caller does those (the trainer of this crate is one such caller), and tells
//! the loop what came of them, one event at a time; the loop answers with what
//! to do next. A run starts `Idle`, is
//! `Running` while batches are drawn and steps are taken, and ends `Completed`
//! or `Failed`.
//!
//! A step has two halves: computing the loss and the gradients, and updating
//! the parameters. Between a batch being accepted and the update being done the
//! loop is in the middle of a step; a request to stop that arrives then is
//! kept, and acted on when the step is over.

use vstd::prelude::*;
use crate::batch::{Batch, Fitness};
use crate::binary64::{all_finite, every_finite, finite, Binary64};
use crate::config::Hyperparameters;
use crate::device::Device;
use crate::error::Error;
use crate::model::MetaFormerModel;

verus! {

/// Where a run stands.
#[derive(Debug, Clone, Copy, PartialEq, Eq, Structural)]
pub enum State {
    /// The run has not started.
    Idle,
    /// Batches are being drawn and steps taken.
    Running,
    /// The run is over: the data ran out, or a stop was asked for.
    Completed,
    /// The run is over because of the error given.
    Failed(Error),
}

/// Where a running loop stands within a step.
#[derive(Debug, Clone, Copy, PartialEq, Eq, Structural)]
pub enum Phase {
    /// Between steps: the next batch has not been accepted.
    Boundary,
    /// A batch has been accepted; its loss and gradients are being computed.
    Computing,
    /// Loss and gradients are finite; the parameters are being updated.
    Updating,
}

/// What the caller tells the loop.
#[derive(Debug, Clone, Copy)]
pub enum Event {
    /// The caller is ready to start, and says whether a GPU is there.
    Start { gpu_available: bool },
    /// Someone asked for the run to stop.
    StopRequested,
    /// The data source has no further batch.
    SourceExhausted,
    /// The data source gave a batch, and this is the verdict on it.
    BatchDrawn(Result<Fitness, Error>),
    /// Forward and backward pass are done.
    StepDone { loss: Binary64, gradients_finite: bool },
    /// The parameters have been updated.
    Updated,
    /// The forward pass, the backward pass or the update failed.
    StepFailed(Error),
}

/// What the loop tells the caller to do next.
#[derive(Debug, Clone, Copy, PartialEq, Eq, Structural)]
pub enum Action {
    /// Find out which devices are there and report `Start`.
    CheckDevice,
    /// Ask the data source for the next batch.
    DrawBatch,
    /// Run the forward pass, compute the loss, run the backward pass.
    RunStep,
    /// Update the parameters from the gradients.
    ApplyUpdate,
    /// Nothing: the run is over.
    Halt,
}

/// Everything about a run that changes as it goes on.
#[derive(Debug, Clone, Copy)]
pub struct Progress {
    /// Where the run stands.
    pub state: State,
    /// Where a running loop stands within a step.
    pub phase: Phase,
    /// Whether a stop was asked for in the middle of a step.
    pub stop_requested: bool,
    /// Number of steps taken to the end, update included.
    pub steps: u64,
    /// Loss of the latest step whose loss and gradients were finite.
    pub last_loss: Option<Binary64>,
    /// The device that the run was started on.
    pub device: Option<Device>,
}

impl Progress {
    /// Whether the run is over.
    pub open spec fn over(&self) -> bool {
        self.state is Completed || self.state is Failed
    }

    /// What holds of the progress of every run: only a running loop can be in
    /// the middle of a step, only in the middle of a step can a stop be
    /// waiting, a loss that is kept is finite, and a run has a device from its
    /// start on and none before.
    pub open spec fn wf(&self) -> bool {
        &&& !(self.state is Running) ==> self.phase is Boundary
        &&& self.phase is Boundary ==> !self.stop_requested
        &&& self.last_loss matches Some(loss) ==> finite(loss.bits)
        &&& self.state is Running ==> self.device is Some
        &&& self.state is Idle ==> self.device is None
    }

    /// The progress of a run that has not started.
    pub open spec fn fresh() -> Progress {
        Progress {
            state: State::Idle,
            phase: Phase::Boundary,
            stop_requested: false,
            steps: 0,
            last_loss: None,
            device: None,
        }
    }

    /// The same run, ended with the given state.
    pub open spec fn ended(self, state: State) -> Progress {
        Progress { state, phase: Phase::Boundary, stop_requested: false, ..self }
    }

    /// The same run with one more step counted. The count stops at the largest
    /// number that it can hold.
    pub open spec fn counted(self) -> Progress {
        Progress {
            steps: if self.steps < u64::MAX {
                (self.steps + 1) as u64
            } else {
                self.steps
            },
            phase: Phase::Boundary,
            stop_requested: false,
            ..self
        }
    }

    /// What the loop waits for.
    pub open spec fn awaited(&self) -> Action {
        match self.state {
            State::Idle => Action::CheckDevice,
            State::Running => match self.phase {
                Phase::Boundary => Action::DrawBatch,
                Phase::Computing => Action::RunStep,
                Phase::Updating => Action::ApplyUpdate,
            },
            State::Completed | State::Failed(_) => Action::Halt,
        }
    }

    /// The progress after an event.
    ///
    /// A run that is over stays as it is. An error that the caller reports ends
    /// the run with that error. A request to stop ends the run at once if no
    /// step is under way, and is kept otherwise. Every other event counts only
    /// where the loop waits for it, and changes nothing elsewhere.
    pub open spec fn next(self, hp: Hyperparameters, event: Event) -> Progress {
        match self.state {
            State::Completed | State::Failed(_) => self,
            State::Idle => match event {
                Event::Start { gpu_available } => match Device::chosen(
                    hp.use_gpu,
                    gpu_available,
                ) {
                    Some(device) => Progress {
                        state: State::Running,
                        device: Some(device),
                        ..self
                    },
                    None => self.ended(State::Failed(Error::DeviceError)),
                },
                Event::StopRequested => self.ended(State::Completed),
                Event::StepFailed(e) => self.ended(State::Failed(e)),
                _ => self,
            },
            State::Running => match event {
                Event::StepFailed(e) => self.ended(State::Failed(e)),
                Event::StopRequested => if self.phase is Boundary {
                    self.ended(State::Completed)
                } else {
                    Progress { stop_requested: true, ..self }
                },
                _ => match self.phase {
                    Phase::Boundary => match event {
                        Event::SourceExhausted => self.ended(State::Completed),
                        Event::BatchDrawn(Ok(Fitness::Fit)) => Progress {
                            phase: Phase::Computing,
                            ..self
                        },
                        Event::BatchDrawn(Ok(Fitness::Undersized)) => self,
                        Event::BatchDrawn(Err(e)) => self.ended(State::Failed(e)),
                        _ => self,
                    },
                    Phase::Computing => match event {
                        Event::StepDone { loss, gradients_finite } => if finite(loss.bits)
                            && gradients_finite {
                            Progress { phase: Phase::Updating, last_loss: Some(loss), ..self }
                        } else {
                            self.ended(State::Failed(Error::NumericalInstabilityError))
                        },
                        _ => self,
                    },
                    Phase::Updating => match event {
                        Event::Updated => if self.stop_requested {
                            self.counted().ended(State::Completed)
                        } else {
                            self.counted()
                        },
                        _ => self,
                    },
                },
            },
        }
    }

    /// The progress after a sequence of events, first to last.
    pub open spec fn run(self, hp: Hyperparameters, events: Seq<Event>) -> Progress
        decreases events.len(),
    {
        if events.len() == 0 {
            self
        } else {
            self.next(hp, events[0]).run(hp, events.drop_first())
        }
    }
}

/// A training loop and the model that it trains.
#[derive(Debug)]
pub struct TrainingLoop {
    model: MetaFormerModel,
    progress: Progress,
}

/// A training loop as the contracts see it.
pub struct LoopView {
    /// The hyperparameters of the model under training.
    pub hyperparameters: Hyperparameters,
    /// How far the run has come.
    pub progress: Progress,
}

impl View for TrainingLoop {
    type V = LoopView;

    closed spec fn view(&self) -> LoopView {
        LoopView { hyperparameters: self.model@, progress: self.progress }
    }
}

impl TrainingLoop {
    #[verifier::type_invariant]
    spec fn inv(&self) -> bool {
        self.progress.wf()
    }

    /// A loop for the given model, not yet started.
    pub fn new(model: MetaFormerModel) -> (r: TrainingLoop)
        ensures
            r@.hyperparameters == model@,
            r@.progress == Progress::fresh(),
    {
        TrainingLoop {
            model,
            progress: Progress {
                state: State::Idle,
                phase: Phase::Boundary,
                stop_requested: false,
                steps: 0,
                last_loss: None,
                device: None,
            },
        }
    }

    /// The model under training.
    pub fn model(&self) -> (r: &MetaFormerModel)
        ensures
            r@ == self@.hyperparameters,
    {
        &self.model
    }

    /// How far the run has come.
    pub fn progress(&self) -> (r: Progress)
        ensures
            r == self@.progress,
            r.wf(),
    {
        proof {
            use_type_invariant(self);
        }
        self.progress
    }

    /// Where the run stands.
    pub fn state(&self) -> (r: State)
        ensures
            r == self@.progress.state,
    {
        self.progress.state
    }

    /// Number of steps taken to the end.
    pub fn steps(&self) -> (r: u64)
        ensures
            r == self@.progress.steps,
    {
        self.progress.steps
    }

    /// Loss of the latest step whose loss and gradients were finite.
    pub fn last_loss(&self) -> (r: Option<Binary64>)
        ensures
            r == self@.progress.last_loss,
            r matches Some(loss) ==> finite(loss.bits),
    {
        proof {
            use_type_invariant(self);
        }
        self.progress.last_loss
    }

    /// The device that the run was started on: none before the start, and one
    /// for as long as the run goes on.
    pub fn device(&self) -> (r: Option<Device>)
        ensures
            r == self@.progress.device,
            self@.progress.state is Running ==> r is Some,
            self@.progress.state is Idle ==> r is None,
    {
        proof {
            use_type_invariant(self);
        }
        self.progress.device
    }

    /// What the loop waits for.
    pub fn awaited(&self) -> (r: Action)
        ensures
            r == self@.progress.awaited(),
    {
        match self.progress.state {
            State::Idle => Action::CheckDevice,
            State::Running => match self.progress.phase {
                Phase::Boundary => Action::DrawBatch,
                Phase::Computing => Action::RunStep,
                Phase::Updating => Action::ApplyUpdate,
            },
            State::Completed | State::Failed(_) => Action::Halt,
        }
    }

    /// Takes an event and says what to do next.
    pub fn advance(&mut self, event: Event) -> (action: Action)
        ensures
            final(self)@.hyperparameters == old(self)@.hyperparameters,
            final(self)@.progress == old(self)@.progress.next(old(self)@.hyperparameters, event),
            action == final(self)@.progress.awaited(),
    {
        proof {
            use_type_invariant(&*self);
        }
        let hp = self.model.hyperparameters();
        let now = self.progress;
        let then = match now.state {
            State::Completed | State::Failed(_) => now,
            State::Idle => match event {
                Event::Start { gpu_available } => match Device::select(
                    hp.use_gpu,
                    gpu_available,
                ) {
                    Ok(device) => Progress {
                        state: State::Running,
                        device: Some(device),
                        ..now
                    },
                    Err(e) => end(now, State::Failed(e)),
                },
                Event::StopRequested => end(now, State::Completed),
                Event::StepFailed(e) => end(now, State::Failed(e)),
                _ => now,
            },
            State::Running => match event {
                Event::StepFailed(e) => end(now, State::Failed(e)),
                Event::StopRequested => match now.phase {
                    Phase::Boundary => end(now, State::Completed),
                    _ => Progress { stop_requested: true, ..now },
                },
                _ => match now.phase {
                    Phase::Boundary => match event {
                        Event::SourceExhausted => end(now, State::Completed),
                        Event::BatchDrawn(Ok(Fitness::Fit)) => Progress {
                            phase: Phase::Computing,
                            ..now
                        },
                        Event::BatchDrawn(Ok(Fitness::Undersized)) => now,
                        Event::BatchDrawn(Err(e)) => end(now, State::Failed(e)),
                        _ => now,
                    },
                    Phase::Computing => match event {
                        Event::StepDone { loss, gradients_finite } => if loss.is_finite()
                            && gradients_finite {
                            Progress { phase: Phase::Updating, last_loss: Some(loss), ..now }
                        } else {
                            end(now, State::Failed(Error::NumericalInstabilityError))
                        },
                        _ => now,
                    },
                    Phase::Updating => match event {
                        Event::Updated => {
                            let counted = count(now);
                            if now.stop_requested {
                                end(counted, State::Completed)
                            } else {
                                counted
                            }
                        },
                        _ => now,
                    },
                },
            },
        };
        self.progress = then;
        self.awaited()
    }

    /// Tests a batch that the data source gave and takes the verdict as an
    /// event.
    pub fn draw(&mut self, batch: &Batch) -> (action: Action)
        ensures
            final(self)@.hyperparameters == old(self)@.hyperparameters,
            final(self)@.progress == old(self)@.progress.next(
                old(self)@.hyperparameters,
                Event::BatchDrawn(batch@.checked(old(self)@.hyperparameters)),
            ),
            action == final(self)@.progress.awaited(),
    {
        let hp = self.model.hyperparameters();
        let verdict = batch.check(&hp);
        self.advance(Event::BatchDrawn(verdict))
    }

    /// Takes the loss and the gradients of a step as an event.
    pub fn report(&mut self, loss: Binary64, gradients: &Vec<Binary64>) -> (action: Action)
        ensures
            final(self)@.hyperparameters == old(self)@.hyperparameters,
            final(self)@.progress == old(self)@.progress.next(
                old(self)@.hyperparameters,
                Event::StepDone { loss, gradients_finite: all_finite(gradients@) },
            ),
            action == final(self)@.progress.awaited(),
    {
        let gradients_finite = every_finite(gradients);
        self.advance(Event::StepDone { loss, gradients_finite })
    }
}

/// The same run, ended with the given state.
fn end(progress: Progress, state: State) -> (r: Progress)
    ensures
        r == progress.ended(state),
{
    Progress { state, phase: Phase::Boundary, stop_requested: false, ..progress }
}

/// The same run with one more step counted.
fn count(progress: Progress) -> (r: Progress)
    ensures
        r == progress.counted(),
{
    let steps: u64 = if progress.steps < u64::MAX {
        progress.steps + 1
    } else {
        progress.steps
    };
    Progress { steps, phase: Phase::Boundary, stop_requested: false, ..progress }
}

/// How far along a state is: a run only ever moves to a state that is at
/// least as far along.
pub open spec fn rank(state: State) -> int {
    match state {
        State::Idle => 0,
        State::Running => 1,
        State::Completed | State::Failed(_) => 2,
    }
}

/// The events of one whole step, taken on a fit batch, with the given loss and
/// finite gradients.
pub open spec fn whole_step(loss: Binary64) -> Seq<Event> {
    seq![
        Event::BatchDrawn(Ok(Fitness::Fit)),
        Event::StepDone { loss, gradients_finite: true },
        Event::Updated,
    ]
}

/// The events of one whole step for each of the given losses, in order.
pub open spec fn whole_steps(losses: Seq<Binary64>) -> Seq<Event>
    decreases losses.len(),
{
    if losses.len() == 0 {
        Seq::<Event>::empty()
    } else {
        whole_steps(losses.drop_last()) + whole_step(losses.last())
    }
}

/// Whether every loss in the sequence is finite.
pub open spec fn losses_finite(losses: Seq<Binary64>) -> bool {
    forall|i: int| 0 <= i < losses.len() ==> finite(#[trigger] losses[i].bits)
}

/// No event breaks what holds of the progress of every run.
pub proof fn law_progress_stays_well_formed(progress: Progress, hp: Hyperparameters, event: Event)
    requires
        progress.wf(),
    ensures
        progress.next(hp, event).wf(),
{
}

/// A run that is over stays over: no event changes it, and the loop asks for
/// nothing more.
pub proof fn law_over_is_final(progress: Progress, hp: Hyperparameters, event: Event)
    requires
        progress.over(),
    ensures
        progress.next(hp, event) == progress,
        progress.awaited() == Action::Halt,
{
}

/// A run never goes back to an earlier state, and its step count never falls.
pub proof fn law_run_only_moves_forward(progress: Progress, hp: Hyperparameters, event: Event)
    ensures
        rank(progress.next(hp, event).state) >= rank(progress.state),
        progress.next(hp, event).steps >= progress.steps,
{
}

/// When the data source runs out between two steps, the run is completed.
pub proof fn law_exhaustion_completes(progress: Progress, hp: Hyperparameters)
    requires
        progress.state is Running,
        progress.phase is Boundary,
    ensures
        progress.next(hp, Event::SourceExhausted).state == State::Completed,
{
}

/// A step whose loss or gradients are not finite fails the run with
/// `NumericalInstabilityError`, and no update is asked for.
pub proof fn law_unstable_step_fails(
    progress: Progress,
    hp: Hyperparameters,
    loss: Binary64,
    gradients_finite: bool,
)
    requires
        progress.state is Running,
        progress.phase is Computing,
        !finite(loss.bits) || !gradients_finite,
    ensures
        progress.next(hp, Event::StepDone { loss, gradients_finite }).state == State::Failed(
            Error::NumericalInstabilityError,
        ),
        progress.next(hp, Event::StepDone { loss, gradients_finite }).awaited() == Action::Halt,
{
}

/// The loop asks for an update only after a step whose loss and gradients
/// were finite, and then keeps that loss.
pub proof fn law_update_follows_finite_step(progress: Progress, hp: Hyperparameters, event: Event)
    requires
        progress.wf(),
        progress.awaited() != Action::ApplyUpdate,
        progress.next(hp, event).awaited() == Action::ApplyUpdate,
    ensures
        event matches Event::StepDone { loss, gradients_finite } && finite(loss.bits)
            && gradients_finite && progress.next(hp, event).last_loss == Some(loss),
{
}

/// An error that the caller reports ends a run that is not yet over with that
/// error, whenever it comes; so does a malformed batch between two steps.
pub proof fn law_no_error_is_ignored(progress: Progress, hp: Hyperparameters, error: Error)
    requires
        !progress.over(),
    ensures
        progress.next(hp, Event::StepFailed(error)).state == State::Failed(error),
        progress.state is Running && progress.phase is Boundary ==> progress.next(
            hp,
            Event::BatchDrawn(Err(error)),
        ).state == State::Failed(error),
{
}

/// A run that asks for a GPU where there is none fails at the start with
/// `DeviceError`; any other run starts.
pub proof fn law_device_is_checked_at_start(
    progress: Progress,
    hp: Hyperparameters,
    gpu_available: bool,
)
    requires
        progress.state is Idle,
    ensures
        Device::chosen(hp.use_gpu, gpu_available) is None <==> hp.use_gpu && !gpu_available,
        hp.use_gpu && !gpu_available ==> progress.next(hp, Event::Start { gpu_available }).state
            == State::Failed(Error::DeviceError),
        !hp.use_gpu || gpu_available ==> progress.next(hp, Event::Start { gpu_available }).state
            == State::Running,
        !hp.use_gpu ==> progress.next(hp, Event::Start { gpu_available }).device == Some(
            Device::Cpu,
        ),
        hp.use_gpu && gpu_available ==> progress.next(hp, Event::Start { gpu_available }).device
            == Some(Device::Gpu),
{
}

/// A request to stop never cuts a step short. In the middle of a step it only
/// leaves a mark; the step goes on to its update, is counted, and then the run
/// is completed. Between two steps it completes the run at once.
pub proof fn law_stop_waits_for_the_step(progress: Progress, hp: Hyperparameters)
    requires
        progress.wf(),
        progress.state is Running,
    ensures
        progress.phase is Boundary ==> progress.next(hp, Event::StopRequested).state
            == State::Completed,
        !(progress.phase is Boundary) ==> progress.next(hp, Event::StopRequested) == (Progress {
            stop_requested: true,
            ..progress
        }),
        progress.phase is Updating && progress.stop_requested ==> progress.next(hp, Event::Updated)
            == progress.counted().ended(State::Completed),
{
}

/// Running through two sequences of events, one after the other, is running
/// through their concatenation.
pub proof fn lemma_run_in_two_parts(
    progress: Progress,
    hp: Hyperparameters,
    first: Seq<Event>,
    second: Seq<Event>,
)
    ensures
        progress.run(hp, first + second) == progress.run(hp, first).run(hp, second),
    decreases first.len(),
{
    if first.len() == 0 {
    } else {
        assert((first + second).drop_first() =~= first.drop_first() + second);
        lemma_run_in_two_parts(progress.next(hp, first[0]), hp, first.drop_first(), second);
    }
}

/// Running through three events is taking them one by one.
proof fn lemma_run_three(progress: Progress, hp: Hyperparameters, events: Seq<Event>)
    requires
        events.len() == 3,
    ensures
        progress.run(hp, events) == progress.next(hp, events[0]).next(hp, events[1]).next(
            hp,
            events[2],
        ),
{
    reveal_with_fuel(Progress::run, 4);
}

/// Running through one event is taking it.
proof fn lemma_run_one(progress: Progress, hp: Hyperparameters, event: Event)
    ensures
        progress.run(hp, seq![event]) == progress.next(hp, event),
{
    reveal_with_fuel(Progress::run, 2);
}

/// Whole steps with finite losses, taken between two steps of a running loop,
/// leave the loop running between two steps, each step counted and the last
/// loss kept.
pub proof fn lemma_whole_steps_keep_running(
    progress: Progress,
    hp: Hyperparameters,
    losses: Seq<Binary64>,
)
    requires
        progress.wf(),
        progress.state is Running,
        progress.phase is Boundary,
        losses_finite(losses),
        progress.steps + losses.len() <= u64::MAX,
    ensures
        progress.run(hp, whole_steps(losses)) == (Progress {
            steps: (progress.steps + losses.len()) as u64,
            last_loss: if losses.len() == 0 {
                progress.last_loss
            } else {
                Some(losses.last())
            },
            ..progress
        }),
    decreases losses.len(),
{
    if losses.len() == 0 {
    } else {
        let before = losses.drop_last();
        lemma_whole_steps_keep_running(progress, hp, before);
        lemma_run_in_two_parts(progress, hp, whole_steps(before), whole_step(losses.last()));
        lemma_run_three(progress.run(hp, whole_steps(before)), hp, whole_step(losses.last()));
    }
}

/// A run that starts on a device that is there, takes any number of whole
/// steps with finite losses, and then finds the data source exhausted, ends
/// completed, with every step counted.
pub proof fn law_run_to_exhaustion_completes(
    hp: Hyperparameters,
    gpu_available: bool,
    losses: Seq<Binary64>,
)
    requires
        !hp.use_gpu || gpu_available,
        losses_finite(losses),
        losses.len() <= u64::MAX,
    ensures
        ({
            let events = seq![Event::Start { gpu_available }] + whole_steps(losses)
                + seq![Event::SourceExhausted];
            let end = Progress::fresh().run(hp, events);
            end.state == State::Completed && end.steps == losses.len()
        }),
{
    let start = seq![Event::Start { gpu_available }];
    let finish = seq![Event::SourceExhausted];
    let started = Progress::fresh().next(hp, Event::Start { gpu_available });
    lemma_run_one(Progress::fresh(), hp, Event::Start { gpu_available });
    lemma_run_in_two_parts(Progress::fresh(), hp, start, whole_steps(losses));
    lemma_whole_steps_keep_running(started, hp, losses);
    lemma_run_in_two_parts(Progress::fresh(), hp, start + whole_steps(losses), finish);
    lemma_run_one(started.run(hp, whole_steps(losses)), hp, Event::SourceExhausted);
}

/// A run that has taken any number of whole steps with finite losses and then
/// computes a loss that is not finite ends failed, with
/// `NumericalInstabilityError`, and that last step is not counted.
pub proof fn law_run_into_instability_fails(
    hp: Hyperparameters,
    gpu_available: bool,
    losses: Seq<Binary64>,
    bad: Binary64,
)
    requires
        !hp.use_gpu || gpu_available,
        losses_finite(losses),
        losses.len() <= u64::MAX,
        !finite(bad.bits),
    ensures
        ({
            let events = seq![Event::Start { gpu_available }] + whole_steps(losses)
                + seq![
                Event::BatchDrawn(Ok(Fitness::Fit)),
                Event::StepDone { loss: bad, gradients_finite: true },
                Event::Updated,
            ];
            let end = Progress::fresh().run(hp, events);
            end.state == State::Failed(Error::NumericalInstabilityError) && end.steps
                == losses.len()
        }),
{
    let start = seq![Event::Start { gpu_available }];
    let last = seq![
        Event::BatchDrawn(Ok(Fitness::Fit)),
        Event::StepDone { loss: bad, gradients_finite: true },
        Event::Updated,
    ];
    let started = Progress::fresh().next(hp, Event::Start { gpu_available });
    lemma_run_one(Progress::fresh(), hp, Event::Start { gpu_available });
    lemma_run_in_two_parts(Progress::fresh(), hp, start, whole_steps(losses));
    lemma_whole_steps_keep_running(started, hp, losses);
    lemma_run_in_two_parts(Progress::fresh(), hp, start + whole_steps(losses), last);
    lemma_run_three(started.run(hp, whole_steps(losses)), hp, last);
}

} // verus!
