//! Decision engine of a soil-irrigation controller.
//!
//! The [`threshold_examiner::Examiner`] receives periodic moisture readings,
//! runs its rules against each of them and decides whether the pump is to
//! run, and for how long. The engine only decides: whoever drives it hands
//! the returned duration to the pump.

pub mod rules;
pub mod threshold_examiner;
pub mod guarantees;
