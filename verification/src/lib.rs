//! Simulated digital I/O pins driven through a presentation surface.
//!
//! The crate models the pin logic itself: a single-slot notification
//! primitive ([`signal::Signal`]), an input pin whose level is toggled by
//! an external event source ([`input::InputPin`]), an output pin that
//! renders its level as a markup fragment ([`output::OutputPin`]), and the
//! pure composer of those fragments ([`visual::OutputVisual`]).
//!
//! Binding to a concrete presentation surface — registering the click
//! callback, pushing a rendered fragment into a named element, and the
//! executor that parks on a pending wait — is left to a thin unverified
//! shell around this crate; the pins hand it plain values.

pub mod input;
pub mod output;
pub mod signal;
pub mod visual;
