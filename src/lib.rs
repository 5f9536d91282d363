//! Actor transition model for driving simulated identities against a
//! directory service: the action catalogue, the behaviour strategies that
//! pick each actor's next action, the classification of outcomes, and the
//! simulation plan that binds identities to strategies.
pub mod action;
pub mod error;
pub mod model;
pub mod markov;
pub mod state;
