//! A retirement projection engine's calendar, people, statutory tables and
//! decision rules, with their contracts.
use vstd::prelude::*;

pub mod account;
pub mod drawdown;
pub mod early_access;
pub mod household;
pub mod limits;
pub mod monte_carlo;
pub mod person;
pub mod phased;
pub mod plan;
pub mod presets;
pub mod seeds;
pub mod sim;
pub mod social_security;
pub mod stream;
pub mod survivor;
pub mod tax;
pub mod tax_figures;
pub mod text;
pub mod validation;
pub mod validation_accounts;
pub mod validation_assumptions;
pub mod validation_benefits;
pub mod validation_drawdown;
pub mod validation_streams;
pub mod year_month;

verus! {

/// The engine's version, as the front end shows it.
pub fn version() -> (r: &'static str)
    ensures
        r@ == "0.1.0"@,
{
    "0.1.0"
}

} // verus!
