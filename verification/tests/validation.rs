use engine::account::{AccountKind, PlanType};
use engine::person::Person;
use engine::plan::{PeriodLength, SimConfig};
use engine::social_security::FullRetirementAge;
use engine::stream::StreamBoundary;
use engine::validation::{validate, PlanChecks, ValidationError};
use engine::validation_accounts::{AccountCheck, ContributionCheck, MatchCheck, TierCheck};
use engine::phased::{PhaseSpec, PhaseStart, StackSource};
use engine::validation_assumptions::{AssumptionsCheck, BracketCheck, StateTaxCheck, ThresholdCheck};
use engine::validation_benefits::BenefitCheck;
use engine::validation_streams::StreamCheck;
use engine::year_month::YearMonth;

fn person(id: &str, name: &str, birth: (i32, u8), retirement: (i32, u8), life: u8) -> Person {
    Person {
        id: id.to_string(),
        name: name.to_string(),
        birth: YearMonth { year: birth.0, month: birth.1 },
        retirement: YearMonth { year: retirement.0, month: retirement.1 },
        life_expectancy_age: life,
    }
}

fn account(id: &str, owner: &str, name: &str, kind: AccountKind, plan_type: PlanType, rule: ContributionCheck) -> AccountCheck {
    AccountCheck {
        id: id.to_string(),
        owner: owner.to_string(),
        name: name.to_string(),
        kind,
        plan_type,
        negative_balance: false,
        contributions: vec![rule],
        employer_match: None,
    }
}

fn stream(id: &str, name: &str, owner: Option<&str>, start: StreamBoundary, end: StreamBoundary) -> StreamCheck {
    StreamCheck {
        id: id.to_string(),
        name: name.to_string(),
        owner: owner.map(|o| o.to_string()),
        survivor_percentage: None,
        start,
        end,
    }
}

/// What validation reads of the bundled example household.
fn seed_checks() -> PlanChecks {
    PlanChecks {
        sim_config: SimConfig {
            start: YearMonth::new(2026, 1),
            period: PeriodLength::Year,
            display_real_dollars: false,
        },
        people: vec![
            person("alex", "Alex", (1983, 8), (2038, 8), 88),
            person("jordan", "Jordan", (1987, 6), (2042, 8), 96),
        ],
        accounts: vec![
            account(
                "taxable-brokerage",
                "alex",
                "Taxable Brokerage",
                AccountKind::Taxable,
                PlanType::Uncapped,
                ContributionCheck::FlatAmount { negative: false },
            ),
            account(
                "alex-401k",
                "alex",
                "Alex 401(k)",
                AccountKind::TraditionalPreTax,
                PlanType::EmployerPlan,
                ContributionCheck::FederalMaximum,
            ),
            account(
                "jordan-roth",
                "jordan",
                "Jordan Roth IRA",
                AccountKind::Roth,
                PlanType::Ira,
                ContributionCheck::FederalMaximum,
            ),
        ],
        streams: vec![
            stream(
                "alex-salary",
                "Alex salary",
                Some("alex"),
                StreamBoundary::PlanStart,
                StreamBoundary::AtRetirement("alex".to_string()),
            ),
            stream(
                "jordan-salary",
                "Jordan salary",
                Some("jordan"),
                StreamBoundary::PlanStart,
                StreamBoundary::AtRetirement("jordan".to_string()),
            ),
            stream(
                "household-spending",
                "Household spending",
                None,
                StreamBoundary::PlanStart,
                StreamBoundary::PlanEnd,
            ),
        ],
        social_security: vec![BenefitCheck {
            id: "alex-social-security".to_string(),
            owner: "alex".to_string(),
            claiming_age: 70,
            full_retirement_age: None,
            negative_benefit: false,
            cola_override_too_low: false,
        }],
        state_tax: StateTaxCheck {
            negative_standard_deduction: false,
            brackets: vec![BracketCheck { rate_in_range: true, up_to: None }],
        },
        assumptions: AssumptionsCheck {
            inflation_too_low: false,
            survivor_expense_out_of_range: false,
            social_security_cola_too_low: false,
            returns: vec![
                ("Aggressive".to_string(), false),
                ("Moderate".to_string(), false),
                ("Conservative".to_string(), false),
            ],
            volatility: vec![
                ("Aggressive".to_string(), false),
                ("Moderate".to_string(), false),
                ("Conservative".to_string(), false),
            ],
        },
        reinvest_into: None,
        drawdown_phases: Vec::new(),
    }
}

/// A state bracket ceiling as validation reads it.
fn ceiling(up_to: f64) -> ThresholdCheck {
    let bits = up_to.to_bits();
    let magnitude = (bits & 0x7FFF_FFFF_FFFF_FFFF) as i64;
    ThresholdCheck { key: if bits >> 63 == 0 { magnitude } else { -magnitude }, comparable: !up_to.is_nan() }
}

fn has_field(errors: &[ValidationError], field: &str) -> bool {
    errors.iter().any(|e| e.field == field)
}

#[test]
fn seed_plan_is_valid() {
    assert!(validate(&seed_checks()).is_empty());
}

#[test]
fn catches_empty_people() {
    let mut plan = seed_checks();
    plan.people.clear();
    let errors = validate(&plan);
    assert!(errors.iter().any(|e| e.field == "people"));
}

#[test]
fn catches_duplicate_person_id() {
    let mut plan = seed_checks();
    let dup = plan.people[0].clone();
    let dup_index = plan.people.len();
    plan.people.push(dup);
    let errors = validate(&plan);
    assert!(errors
        .iter()
        .any(|e| e.field == format!("people[{dup_index}].id")));
}

#[test]
fn catches_retirement_before_birth() {
    let mut plan = seed_checks();
    plan.people[0].retirement = plan.people[0].birth;
    let errors = validate(&plan);
    assert!(errors.iter().any(|e| e.field == "people[0].retirement"));
}

#[test]
fn catches_unknown_account_owner() {
    let mut plan = seed_checks();
    plan.accounts[0].owner = "nobody".to_string();
    let errors = validate(&plan);
    assert!(errors.iter().any(|e| e.field == "accounts[0].owner"));
}

#[test]
fn catches_negative_balance() {
    let mut plan = seed_checks();
    plan.accounts[0].negative_balance = true;
    let errors = validate(&plan);
    assert!(errors.iter().any(|e| e.field == "accounts[0].balance"));
}

#[test]
fn catches_duplicate_account_and_stream_ids() {
    let mut plan = seed_checks();
    let dup_account = plan.accounts[0].clone();
    let account_dup_index = plan.accounts.len();
    plan.accounts.push(dup_account);
    let dup_stream = plan.streams[0].clone();
    let stream_dup_index = plan.streams.len();
    plan.streams.push(dup_stream);
    let errors = validate(&plan);
    assert!(errors
        .iter()
        .any(|e| e.field == format!("accounts[{account_dup_index}].id")));
    assert!(errors
        .iter()
        .any(|e| e.field == format!("streams[{stream_dup_index}].id")));
}

#[test]
fn catches_out_of_range_month() {
    let mut plan = seed_checks();
    plan.people[0].birth.month = 85;
    let errors = validate(&plan);
    assert!(errors
        .iter()
        .any(|e| e.field == "people[0].birth" && e.message.contains("invalid month")));
}

#[test]
fn catches_absurd_year() {
    let mut plan = seed_checks();
    plan.people[0].birth.year = 198_308;
    let errors = validate(&plan);
    assert!(errors.iter().any(|e| e.field == "people[0].birth"));
}

#[test]
fn catches_bad_dates_on_streams_and_sim_start() {
    let mut plan = seed_checks();
    plan.sim_config.start.month = 0;
    plan.streams[0].start = StreamBoundary::Date(YearMonth { year: 12, month: 13 });
    let errors = validate(&plan);
    assert!(errors.iter().any(|e| e.field == "sim_config.start"));
    assert!(errors.iter().any(|e| e.field == "streams[0].start"));
}

#[test]
fn accepts_every_valid_month() {
    for month in 1..=12 {
        let mut plan = seed_checks();
        plan.people[0].birth.month = month;
        assert!(
            validate(&plan).is_empty(),
            "month {month} should be valid: {:?}",
            validate(&plan)
        );
    }
}

#[test]
fn catches_out_of_range_state_bracket_rate() {
    let mut plan = seed_checks();
    plan.state_tax.brackets = vec![BracketCheck { rate_in_range: false, up_to: None }];
    let errors = validate(&plan);
    assert!(has_field(&errors, "assumptions.state_tax.brackets[0].rate"));
}

#[test]
fn catches_non_ascending_state_brackets() {
    // Ceilings of 50,000 then 20,000, then the open-ended last rung.
    let mut plan = seed_checks();
    plan.state_tax.brackets = vec![
        BracketCheck { rate_in_range: true, up_to: Some(ceiling(50_000.0)) },
        BracketCheck { rate_in_range: true, up_to: Some(ceiling(20_000.0)) },
        BracketCheck { rate_in_range: true, up_to: None },
    ];
    let errors = validate(&plan);
    assert!(has_field(&errors, "assumptions.state_tax.brackets[1].up_to"));
}

#[test]
fn catches_state_brackets_missing_unbounded_last_rung() {
    let mut plan = seed_checks();
    plan.state_tax.brackets = vec![BracketCheck { rate_in_range: true, up_to: Some(ceiling(10_000.0)) }];
    let errors = validate(&plan);
    assert!(has_field(&errors, "assumptions.state_tax.brackets[0].up_to"));
}

#[test]
fn catches_negative_state_standard_deduction() {
    let mut plan = seed_checks();
    plan.state_tax.negative_standard_deduction = true;
    let errors = validate(&plan);
    assert!(has_field(&errors, "assumptions.state_tax.standard_deduction"));
}

#[test]
fn catches_duplicate_social_security_id() {
    let mut plan = seed_checks();
    let dup = plan.social_security[0].clone();
    let dup_index = plan.social_security.len();
    plan.social_security.push(dup);
    let errors = validate(&plan);
    assert!(errors
        .iter()
        .any(|e| e.field == format!("social_security[{dup_index}].id")));
}

#[test]
fn catches_unknown_social_security_owner() {
    let mut plan = seed_checks();
    plan.social_security[0].owner = "nobody".to_string();
    let errors = validate(&plan);
    assert!(has_field(&errors, "social_security[0].owner"));
}

#[test]
fn catches_out_of_range_claiming_age() {
    let mut plan = seed_checks();
    plan.social_security[0].claiming_age = 61;
    let errors = validate(&plan);
    assert!(has_field(&errors, "social_security[0].claiming_age"));
}

#[test]
fn catches_out_of_range_full_retirement_age() {
    let mut plan = seed_checks();
    plan.social_security[0].full_retirement_age = Some(FullRetirementAge::new(71, 0));
    let errors = validate(&plan);
    assert!(has_field(&errors, "social_security[0].full_retirement_age"));
}

#[test]
fn catches_negative_benefit_at_fra() {
    let mut plan = seed_checks();
    plan.social_security[0].negative_benefit = true;
    let errors = validate(&plan);
    assert!(has_field(&errors, "social_security[0].benefit_at_fra"));
}

#[test]
fn catches_bad_cola_override() {
    let mut plan = seed_checks();
    plan.social_security[0].cola_override_too_low = true;
    let errors = validate(&plan);
    assert!(has_field(&errors, "social_security[0].cola_override"));
}

#[test]
fn catches_out_of_range_survivor_expense_factor() {
    let mut plan = seed_checks();
    plan.assumptions.survivor_expense_out_of_range = true;
    let errors = validate(&plan);
    assert!(has_field(&errors, "assumptions.survivor_expense_factor"));
}

#[test]
fn catches_out_of_range_survivor_percentage() {
    let mut plan = seed_checks();
    plan.streams[0].survivor_percentage = Some(false);
    let errors = validate(&plan);
    assert!(has_field(&errors, "streams[0].survivor_percentage"));
}

#[test]
fn catches_survivor_percentage_on_an_unowned_stream() {
    let mut plan = seed_checks();
    let i = plan
        .streams
        .iter()
        .position(|s| s.owner.is_none())
        .expect("seed plan has a household stream");
    plan.streams[i].survivor_percentage = Some(true);
    let errors = validate(&plan);
    assert!(errors
        .iter()
        .any(|e| e.field == format!("streams[{i}].survivor_percentage")));
}

#[test]
fn catches_bad_social_security_cola_assumption() {
    let mut plan = seed_checks();
    plan.assumptions.social_security_cola_too_low = true;
    let errors = validate(&plan);
    assert!(has_field(&errors, "assumptions.social_security_cola"));
}

#[test]
fn catches_out_of_range_asset_volatility() {
    let mut plan = seed_checks();
    plan.assumptions.volatility[0].1 = true;
    let errors = validate(&plan);
    assert!(has_field(&errors, "assumptions.asset_volatility"));
}

#[test]
fn catches_extreme_inflation_and_returns() {
    let mut plan = seed_checks();
    plan.assumptions.inflation_too_low = true;
    plan.assumptions.returns[1].1 = true;
    let errors = validate(&plan);
    assert!(has_field(&errors, "assumptions.inflation"));
    assert!(has_field(&errors, "assumptions.asset_returns"));
}

#[test]
fn each_message_says_what_is_wrong() {
    let mut plan = seed_checks();
    plan.accounts[0].owner = "nobody".to_string();
    plan.accounts[1].plan_type = PlanType::Uncapped;
    plan.accounts[1].employer_match = Some(MatchCheck {
        covers_over_whole: Some("120".to_string()),
        tiers: vec![TierCheck { width_out_of_range: None, negative_rate: true }],
    });
    plan.accounts[2].contributions =
        vec![ContributionCheck::PercentOfSalary {
            in_range: false,
            percent: "150".to_string(),
            cap_below_start: false,
        }];
    plan.streams[2].survivor_percentage = Some(true);
    plan.streams[1].end = StreamBoundary::Date(YearMonth { year: 2040, month: 0 });
    plan.social_security[0].claiming_age = 61;
    let errors = validate(&plan);
    let texts: Vec<(&str, &str)> =
        errors.iter().map(|e| (e.field.as_str(), e.message.as_str())).collect();
    assert_eq!(
        texts,
        vec![
            (
                "accounts[0].owner",
                "\"Taxable Brokerage\" has no owner — pick one of the people on this plan."
            ),
            (
                "accounts[1].plan_type",
                "\"Alex 401(k)\" is a retirement account, so it needs a plan type."
            ),
            (
                "accounts[1].contribution",
                "\"Alex 401(k)\" has no federal maximum — a taxable brokerage is uncapped."
            ),
            (
                "accounts[1].employer_match",
                "\"Alex 401(k)\" isn't an employer plan, so it can't have an employer match."
            ),
            (
                "accounts[1].employer_match",
                "\"Alex 401(k)\" matches on 120% of salary in total — the tiers can't add up to more than 100%."
            ),
            (
                "accounts[1].employer_match",
                "\"Alex 401(k)\" has a match tier paying a negative rate."
            ),
            (
                "accounts[2].contribution",
                "\"Jordan Roth IRA\" contributes 150% of salary — it has to be between 0% and 100%."
            ),
            ("streams[1].end", "\"Jordan salary\"'s end date has an invalid month (0)."),
            (
                "streams[2].survivor_percentage",
                "\"Household spending\" has a survivor percentage but no owner — it needs one whose death the survivor share starts at."
            ),
            ("social_security[0].claiming_age", "Claiming age must be between 62 and 70."),
        ]
    );
}

#[test]
fn a_date_message_names_the_year_range() {
    let mut plan = seed_checks();
    plan.people[1].birth.year = 198_708;
    let errors = validate(&plan);
    // The year is out of range, and the retirement now comes before it.
    assert_eq!(errors.len(), 2);
    assert_eq!(errors[0].field, "people[1].birth");
    assert_eq!(errors[0].message, "Jordan's birth date must be between 1900 and 2200 (got 198708).");
    assert_eq!(errors[1].field, "people[1].retirement");
    assert_eq!(errors[1].message, "Jordan's retirement date must be after their birth date.");
}

#[test]
fn a_taxable_account_given_a_bucket_is_told_so() {
    let mut plan = seed_checks();
    plan.accounts[0].plan_type = PlanType::Ira;
    let errors = validate(&plan);
    assert_eq!(errors.len(), 1);
    assert_eq!(errors[0].field, "accounts[0].plan_type");
    assert_eq!(
        errors[0].message,
        "\"Taxable Brokerage\" is a taxable brokerage, so it isn't a 401(k) or an IRA."
    );
}

#[test]
fn rejects_a_reinvest_destination_that_names_no_account() {
    let mut plan = seed_checks();
    plan.reinvest_into = Some("no-such-account".to_string());
    assert_eq!(
        validate(&plan),
        vec![ValidationError {
            field: "assumptions.reinvest_into".to_string(),
            message: "\"no-such-account\" isn't an account on this plan.".to_string(),
        }]
    );
}

#[test]
fn rejects_a_reinvest_destination_of_the_wrong_kind() {
    let mut plan = seed_checks();
    plan.reinvest_into = Some("alex-401k".to_string());
    assert_eq!(
        validate(&plan),
        vec![ValidationError {
            field: "assumptions.reinvest_into".to_string(),
            message: "\"alex-401k\" can't receive reinvested cash — only a taxable or savings account can."
                .to_string(),
        }]
    );
}

#[test]
fn accepts_a_taxable_or_savings_reinvest_destination() {
    let mut plan = seed_checks();
    plan.reinvest_into = Some("taxable-brokerage".to_string());
    assert!(validate(&plan).is_empty());
    plan.accounts[0].kind = AccountKind::Savings;
    assert!(!has_field(&validate(&plan), "assumptions.reinvest_into"));
}

#[test]
fn rejects_a_step_up_cap_below_the_starting_percentage() {
    let mut plan = seed_checks();
    plan.accounts[1].contributions = vec![ContributionCheck::PercentOfSalary {
        in_range: true,
        percent: "10".to_string(),
        cap_below_start: true,
    }];
    assert_eq!(
        validate(&plan),
        vec![ValidationError {
            field: "accounts[1].contribution".to_string(),
            message: "\"Alex 401(k)\" steps up to a cap below its starting percentage — the cap has to be at or above it."
                .to_string(),
        }]
    );
}

#[test]
fn rejects_a_phase_from_a_missing_person_or_account() {
    let mut plan = seed_checks();
    plan.drawdown_phases = vec![
        PhaseSpec {
            id: "bridge".to_string(),
            start: PhaseStart::Boundary(StreamBoundary::PlanStart),
            stack: vec![
                StackSource::Account("taxable-brokerage".to_string()),
                StackSource::Kind(AccountKind::Roth),
                StackSource::Account("gone".to_string()),
            ],
        },
        PhaseSpec {
            id: "standard".to_string(),
            start: PhaseStart::PenaltyFree("sam".to_string()),
            stack: vec![StackSource::Account("alex-401k".to_string())],
        },
        PhaseSpec {
            id: "late".to_string(),
            start: PhaseStart::Boundary(StreamBoundary::AtAge("jordan".to_string(), 70)),
            stack: vec![],
        },
    ];
    let errors = validate(&plan);
    let texts: Vec<(&str, &str)> =
        errors.iter().map(|e| (e.field.as_str(), e.message.as_str())).collect();
    assert_eq!(
        texts,
        vec![
            ("assumptions.drawdown.phases[0].stack[2].source", "\"gone\" isn't an account on this plan."),
            ("assumptions.drawdown.phases[1].start", "\"sam\" isn't a person on this plan."),
        ]
    );
}

#[test]
fn a_state_ceiling_is_compared_with_the_one_just_before_it() {
    // 50,000 then 20,000 then 30,000: the second falls, and the third is
    // held to the second, which it clears.
    let mut plan = seed_checks();
    plan.state_tax.brackets = vec![
        BracketCheck { rate_in_range: true, up_to: Some(ceiling(50_000.0)) },
        BracketCheck { rate_in_range: true, up_to: Some(ceiling(20_000.0)) },
        BracketCheck { rate_in_range: true, up_to: Some(ceiling(30_000.0)) },
        BracketCheck { rate_in_range: true, up_to: None },
    ];
    let fields: Vec<String> = validate(&plan).into_iter().map(|e| e.field).collect();
    assert_eq!(fields, vec!["assumptions.state_tax.brackets[1].up_to".to_string()]);
}

#[test]
fn a_first_state_ceiling_of_zero_does_not_ascend() {
    let mut plan = seed_checks();
    plan.state_tax.brackets = vec![
        BracketCheck { rate_in_range: true, up_to: Some(ceiling(0.0)) },
        BracketCheck { rate_in_range: true, up_to: None },
    ];
    assert!(has_field(&validate(&plan), "assumptions.state_tax.brackets[0].up_to"));
}

#[test]
fn a_nan_state_ceiling_compares_with_nothing() {
    let mut plan = seed_checks();
    plan.state_tax.brackets = vec![
        BracketCheck { rate_in_range: true, up_to: Some(ceiling(f64::NAN)) },
        BracketCheck { rate_in_range: true, up_to: Some(ceiling(-5.0)) },
        BracketCheck { rate_in_range: true, up_to: None },
    ];
    assert!(validate(&plan).is_empty());
}
