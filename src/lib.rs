//! Linear and logistic regression models: shape checks, bias augmentation,
//! method selection, mini-batch scheduling and model state.
//!
//! The library is generic over the scalar type of features and weights; the
//! arithmetic on that scalar is supplied by the caller.

pub mod error;
pub mod matrix;
pub mod method;
pub mod model;
pub mod schedule;
pub mod training;
