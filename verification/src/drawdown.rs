//! The drawdown strategies a plan can name.
use vstd::prelude::*;

verus! {

/// Withdraws from every account in proportion to its balance, so each one
/// runs down at the same rate.
#[derive(Clone, Copy, Debug, PartialEq, Eq, Structural)]
pub struct ProportionalDrawdown;

} // verus!
