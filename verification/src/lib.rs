//! A trainer for MetaFormer models: transformers whose attention sublayer is
//! one of several interchangeable kinds.
//!
//! The crate holds the whole of the engine: the rules that tell which
//! hyperparameters describe a model, which tensors the model has and of which
//! shapes, which positions an attention head may look at and which batches are
//! fit for a step; the forward pass, the loss, the backward pass and the update;
//! and the state machine that takes a training run from its start to its end.
//!
//! What it does not hold is arithmetic on fractions. The numbers that tensors
//! are made of are a type that the caller brings (see [`number::Number`]), and
//! nothing is assumed of what its operations return. Beside every number the
//! crate keeps, for the proofs only, the term by which the number came about:
//! from which bit patterns and counts, by which operations, in which order.
//! The contracts of the engine are stated over these terms. They say of every
//! result exactly which operations were applied to what, in which order, and
//! so fix the engine's arithmetic down to the order of each sum; they say that
//! no operation reads or writes outside a tensor, that every operation
//! refuses operands that do not fit and takes all others, that no position is
//! given a weight for a position that it may not see, and that a run ends in
//! failure rather than go on with a loss or a gradient that is not finite.
//! Where a rule depends on the value of a number (a learning rate, a loss), it
//! reads the number's IEEE 754 bit pattern.

pub mod binary64;
pub mod error;
pub mod config;
pub mod device;
pub mod seed;
pub mod shape;
pub mod layout;
pub mod number;
pub mod rows;
pub mod tensor;
pub mod normalization;
pub mod attention;
pub mod attend;
pub mod block;
pub mod tokens;
pub mod batch;
pub mod model;
pub mod parameters;
pub mod pass;
pub mod causality;
pub mod loss;
pub mod step;
pub mod training;
pub mod trainer;
