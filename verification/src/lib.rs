//! Shape, configuration and step bookkeeping for fitting a polynomial to
//! samples with the Adam optimizer.
//!
//! The crate holds every decision of the fit that is made on whole numbers:
//! which sample sets and gradients are admissible, which hyperparameters an
//! optimizer may be built with, what a fresh optimizer holds, and how its
//! state moves on at each step. Single-precision values are carried as their
//! IEEE-754 bit patterns and never computed with here; the arithmetic on
//! them belongs to the embedding program.

pub mod adam;
pub mod binary32;
pub mod error;
pub mod model;
