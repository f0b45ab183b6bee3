//! The ways in which building a model or running a training loop can fail.

use vstd::prelude::*;

verus! {

/// Why a model could not be built, a batch could not be used, or a run ended early.
#[derive(Debug, Clone, Copy, PartialEq, Eq, Structural)]
pub enum Error {
    /// The hyperparameters contradict one another or lie outside their ranges.
    ConfigError,
    /// A batch or a sequence does not have the shape that the model was built for.
    ShapeError,
    /// A token id lies outside the vocabulary that it indexes.
    RangeError,
    /// The device that was asked for is not there.
    DeviceError,
    /// A loss or a gradient is not a finite number.
    NumericalInstabilityError,
}

} // verus!
