use engine::account::{
    is_reinvest_target, kind_agrees_with_plan_type, reinvest_target, AccountFacts, AccountKind, PlanType,
};
use engine::early_access::{resolve_early_access, rule_of_55, EarlyAccess, Rule55Ineligibility};
use engine::person::Person;
use engine::plan::{PeriodLength, SimConfig, Timeline};
use engine::presets::{rmd_age, uniform_lifetime_divisor_tenths, UNIFORM_LIFETIME_FIRST_AGE};
use engine::seeds::{mix_seed, splitmix64};
use engine::stream::StreamKind;
use engine::tax::{ByFilingStatus, FilingStatus};
use engine::version;
use engine::year_month::YearMonth;

fn seed_timeline() -> Timeline {
    Timeline {
        people: vec![
            Person {
                id: "alex".to_string(),
                name: "Alex".to_string(),
                birth: YearMonth::new(1983, 8),
                retirement: YearMonth::new(2038, 8),
                life_expectancy_age: 88,
            },
            Person {
                id: "jordan".to_string(),
                name: "Jordan".to_string(),
                birth: YearMonth::new(1987, 6),
                retirement: YearMonth::new(2042, 8),
                life_expectancy_age: 96,
            },
        ],
        sim_config: SimConfig {
            start: YearMonth::new(2026, 1),
            period: PeriodLength::Year,
            display_real_dollars: false,
        },
    }
}

fn facts(id: &str, owner: &str, kind: AccountKind, plan_type: PlanType, rule_of_55: bool) -> AccountFacts {
    AccountFacts {
        id: id.to_string(),
        owner: owner.to_string(),
        kind,
        plan_type,
        rule_of_55,
    }
}

#[test]
fn legacy_plan_type_defaults_follow_the_account_kind() {
    for (kind, expected) in [
        (AccountKind::Taxable, PlanType::Uncapped),
        (AccountKind::TraditionalPreTax, PlanType::EmployerPlan),
        (AccountKind::Roth, PlanType::Ira),
        (AccountKind::Savings, PlanType::Uncapped),
        (AccountKind::Hsa, PlanType::Hsa),
    ] {
        assert_eq!(PlanType::default_for(kind), expected);
    }
}

#[test]
fn only_a_taxable_brokerage_draws_on_no_bucket() {
    assert!(kind_agrees_with_plan_type(AccountKind::Taxable, PlanType::Uncapped));
    assert!(!kind_agrees_with_plan_type(AccountKind::Taxable, PlanType::Ira));
    assert!(kind_agrees_with_plan_type(AccountKind::Roth, PlanType::EmployerPlan));
    assert!(!kind_agrees_with_plan_type(AccountKind::TraditionalPreTax, PlanType::Uncapped));
    assert!(is_reinvest_target(AccountKind::Taxable));
}

#[test]
fn rmd_age_follows_secure_2_0() {
    assert_eq!(rmd_age(1950), 72);
    assert_eq!(rmd_age(1951), 73);
    assert_eq!(rmd_age(1959), 73);
    assert_eq!(rmd_age(1960), 75);
    assert_eq!(rmd_age(1983), 75);
}

#[test]
fn the_uniform_lifetime_table_starts_at_72_and_tops_out_at_120() {
    assert_eq!(UNIFORM_LIFETIME_FIRST_AGE, 72);
    assert_eq!(uniform_lifetime_divisor_tenths(71), None);
    assert_eq!(uniform_lifetime_divisor_tenths(72), Some(274));
    assert_eq!(uniform_lifetime_divisor_tenths(75), Some(246));
    assert_eq!(uniform_lifetime_divisor_tenths(100), Some(64));
    assert_eq!(uniform_lifetime_divisor_tenths(120), Some(20));
    assert_eq!(uniform_lifetime_divisor_tenths(130), Some(20));
}

#[test]
fn splitmix_matches_the_reference_sequence() {
    assert_eq!(splitmix64(0), 16294208416658607535);
    assert_eq!(splitmix64(1), 10451216379200822465);
    assert_eq!(splitmix64(u64::MAX), 16490336266968443936);
    assert_eq!(mix_seed(42, 7, 3), 312257112221475782);
    assert_ne!(mix_seed(42, 7, 3), mix_seed(42, 7, 4));
    assert_ne!(mix_seed(42, 7, 3), mix_seed(42, 8, 3));
}

#[test]
fn defaults_and_lookups() {
    assert_eq!(StreamKind::default(), StreamKind::General);
    assert_eq!(FilingStatus::default(), FilingStatus::Single);
    let figure = ByFilingStatus { single: 15_750, married_filing_jointly: 31_500 };
    assert_eq!(*figure.get(FilingStatus::Single), 15_750);
    assert_eq!(*figure.get(FilingStatus::MarriedFilingJointly), 31_500);
    assert_eq!(version(), "0.1.0");
}

#[test]
fn rule_of_55_needs_an_employer_plan_and_a_late_enough_separation() {
    let mut t = seed_timeline();
    let alex = "alex".to_string();
    // Alex retires in August 2038, the year he turns 55.
    assert_eq!(
        rule_of_55(&t, &alex, AccountKind::TraditionalPreTax, PlanType::EmployerPlan),
        Ok(YearMonth::new(2038, 8))
    );
    assert_eq!(
        rule_of_55(&t, &alex, AccountKind::TraditionalPreTax, PlanType::Ira),
        Err(Rule55Ineligibility::NotAnEmployerPlan)
    );
    t.people[0].retirement = YearMonth::new(2037, 12);
    assert_eq!(
        rule_of_55(&t, &alex, AccountKind::TraditionalPreTax, PlanType::EmployerPlan),
        Err(Rule55Ineligibility::SeparatedBefore55)
    );
    assert_eq!(
        rule_of_55(&t, &"nobody".to_string(), AccountKind::Roth, PlanType::EmployerPlan),
        Err(Rule55Ineligibility::SeparatedBefore55)
    );
}

#[test]
fn early_access_ends_at_59_and_a_half_or_separation() {
    let t = seed_timeline();
    let accounts = vec![
        facts("alex-401k", "alex", AccountKind::TraditionalPreTax, PlanType::EmployerPlan, true),
        facts("jordan-roth", "jordan", AccountKind::Roth, PlanType::Ira, true),
        facts("taxable", "alex", AccountKind::Taxable, PlanType::Uncapped, false),
        facts("457", "alex", AccountKind::TraditionalPreTax, PlanType::Plan457b, false),
    ];
    let (access, ineligible) = resolve_early_access(&t, &accounts);
    // Alex separates in August 2038, before 59½ (February 2043).
    assert_eq!(
        access[0],
        EarlyAccess { nonqualified_until: None, penalized_until: Some(YearMonth::new(2038, 8)) }
    );
    // Jordan reaches 59½ in December 2046; an IRA cannot elect the rule.
    assert_eq!(
        access[1],
        EarlyAccess {
            nonqualified_until: Some(YearMonth::new(2046, 12)),
            penalized_until: Some(YearMonth::new(2046, 12)),
        }
    );
    assert_eq!(access[2], EarlyAccess { nonqualified_until: None, penalized_until: None });
    assert_eq!(access[3], EarlyAccess { nonqualified_until: None, penalized_until: None });
    assert_eq!(ineligible, vec![(1, Rule55Ineligibility::NotAnEmployerPlan)]);

    // A period straddling the month is split at it.
    let (nonqualified, penalized) =
        access[1].early_months(YearMonth::new(2046, 1), YearMonth::new(2047, 1));
    assert_eq!((nonqualified, penalized), (11, 11));
    assert_eq!(access[2].early_months(YearMonth::new(2046, 1), YearMonth::new(2047, 1)), (0, 0));
}

#[test]
fn reinvested_cash_lands_where_the_plan_names_else_the_first_taxable_or_savings_account() {
    let accounts = vec![
        facts("alex-401k", "alex", AccountKind::TraditionalPreTax, PlanType::EmployerPlan, false),
        facts("brokerage", "alex", AccountKind::Taxable, PlanType::Uncapped, false),
        facts("savings", "jordan", AccountKind::Savings, PlanType::Uncapped, false),
    ];
    assert_eq!(reinvest_target(&accounts, &None), Some(1));
    assert_eq!(reinvest_target(&accounts, &Some("savings".to_string())), Some(2));
    // A name of the wrong kind, or of no account, falls back to the first.
    assert_eq!(reinvest_target(&accounts, &Some("alex-401k".to_string())), Some(1));
    assert_eq!(reinvest_target(&accounts, &Some("gone".to_string())), Some(1));
    assert_eq!(reinvest_target(&accounts[..1].to_vec(), &None), None);
}
