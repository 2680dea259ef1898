//! A fee-gated name registry, verified with Verus.
//!
//! A registry maps names to ownership records. Registration, transfer and
//! editing may each cost a fee; the registry owner sets the prices and can
//! withdraw what the registry account holds. Every request is a total,
//! deterministic function from the stored state, the request and what the
//! host answers to the next stored state and a response or an error. A
//! request that fails leaves the stored state as it was.
//!
//! - [`model`] defines that function over mathematical values.
//! - [`state`], [`msg`], [`coin_helpers`] and [`error`] hold the values the
//!   registry works on, each with its view into the model.
//! - [`contract`] holds the request handlers, each proved to do what the
//!   model says.
//! - [`laws`] proves what the model, and so the handlers, guarantee.
//!
//! The library neither reads nor writes storage and asks the host nothing:
//! its caller hands it the stored state and the host's answers, and stores
//! the state that the handlers leave.

pub mod coin_helpers;
pub mod contract;
pub mod error;
pub mod laws;
pub mod model;
pub mod msg;
pub mod state;
