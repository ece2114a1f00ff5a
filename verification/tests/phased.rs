use engine::account::{AccountFacts, AccountKind, PlanType};
use engine::person::Person;
use engine::phased::{
    fallback_group, phase_at, resolve_phases, resolve_stack, segments, PhaseSpec, PhaseStart,
    StackSource,
};
use engine::plan::{PeriodLength, SimConfig, Timeline};
use engine::stream::StreamBoundary;
use engine::year_month::YearMonth;

fn seed_timeline() -> Timeline {
    Timeline {
        people: vec![
            Person {
                id: "alex".to_string(),
                name: "Alex".to_string(),
                birth: YearMonth::new(1983, 8),
                retirement: YearMonth::new(2038, 8),
                life_expectancy_age: 88,
            },
            Person {
                id: "jordan".to_string(),
                name: "Jordan".to_string(),
                birth: YearMonth::new(1987, 6),
                retirement: YearMonth::new(2042, 8),
                life_expectancy_age: 96,
            },
        ],
        sim_config: SimConfig {
            start: YearMonth::new(2026, 1),
            period: PeriodLength::Year,
            display_real_dollars: false,
        },
    }
}

fn seed_accounts() -> Vec<AccountFacts> {
    let account = |id: &str, owner: &str, kind: AccountKind, plan_type: PlanType| AccountFacts {
        id: id.to_string(),
        owner: owner.to_string(),
        kind,
        plan_type,
        rule_of_55: false,
    };
    vec![
        account("taxable-brokerage", "alex", AccountKind::Taxable, PlanType::Uncapped),
        account("alex-401k", "alex", AccountKind::TraditionalPreTax, PlanType::EmployerPlan),
        account("jordan-roth", "jordan", AccountKind::Roth, PlanType::Ira),
    ]
}

fn phase(id: &str, start: PhaseStart) -> PhaseSpec {
    PhaseSpec { id: id.to_string(), start, stack: vec![] }
}

#[test]
fn a_year_is_split_at_each_phase_start() {
    let t = seed_timeline();
    let phases = vec![
        phase("first", PhaseStart::Boundary(StreamBoundary::PlanStart)),
        // Listed out of order on purpose.
        phase(
            "third",
            PhaseStart::Boundary(StreamBoundary::Date(YearMonth::new(2041, 1))),
        ),
        // Alex, born August 1983, reaches 59½ in February 2043.
        phase("second", PhaseStart::PenaltyFree("alex".to_string())),
    ];
    let drawdown = resolve_phases(&t, &phases, &seed_accounts());
    let ids = |segments: Vec<(usize, YearMonth, YearMonth)>| -> Vec<(String, i64)> {
        segments
            .into_iter()
            .map(|(i, from, to)| (drawdown[i].id.clone(), from.months_until(to)))
            .collect()
    };
    let year = |y: i32| (YearMonth::new(y, 1), YearMonth::new(y + 1, 1));
    let named = |v: Vec<(&str, i64)>| -> Vec<(String, i64)> {
        v.into_iter().map(|(s, n)| (s.to_string(), n)).collect()
    };

    let (s, e) = year(2030);
    assert_eq!(ids(segments(&drawdown, s, e)), named(vec![("first", 12)]));
    let (s, e) = year(2041);
    assert_eq!(ids(segments(&drawdown, s, e)), named(vec![("third", 12)]));
    let (s, e) = year(2043);
    assert_eq!(
        ids(segments(&drawdown, s, e)),
        named(vec![("third", 1), ("second", 11)])
    );
    let (s, e) = year(2044);
    assert_eq!(ids(segments(&drawdown, s, e)), named(vec![("second", 12)]));
}

#[test]
fn a_phase_naming_a_departed_person_is_dropped() {
    let t = seed_timeline();
    let phases = vec![
        phase("first", PhaseStart::Boundary(StreamBoundary::PlanStart)),
        phase("ghost", PhaseStart::PenaltyFree("nobody".to_string())),
    ];
    let drawdown = resolve_phases(&t, &phases, &seed_accounts());
    assert_eq!(drawdown.len(), 1);
    assert_eq!(drawdown[0].id, "first");
    assert_eq!(phase_at(&drawdown, YearMonth::new(2020, 1)), Some(0));
}

#[test]
fn of_two_phases_starting_together_the_later_listed_is_in_force() {
    let t = seed_timeline();
    let phases = vec![
        phase("a", PhaseStart::Boundary(StreamBoundary::Date(YearMonth::new(2030, 1)))),
        phase("b", PhaseStart::Boundary(StreamBoundary::Date(YearMonth::new(2030, 1)))),
    ];
    let drawdown = resolve_phases(&t, &phases, &seed_accounts());
    let i = phase_at(&drawdown, YearMonth::new(2031, 5)).unwrap();
    assert_eq!(drawdown[i].id, "b");
}

#[test]
fn a_stack_claims_each_account_once_and_the_rest_fall_back() {
    let accounts = seed_accounts();
    let stack = vec![
        StackSource::Account("jordan-roth".to_string()),
        StackSource::Kind(AccountKind::Roth),
        StackSource::Kind(AccountKind::TraditionalPreTax),
    ];
    let (rungs, unlisted) = resolve_stack(&stack, &accounts);
    assert_eq!(rungs, vec![vec![2], vec![], vec![1]]);
    assert_eq!(unlisted, vec![0]);
}

#[test]
fn the_fallback_takes_penalty_free_money_first_then_by_kind() {
    assert_eq!(fallback_group(false, AccountKind::Savings), 0);
    assert_eq!(fallback_group(false, AccountKind::Taxable), 1);
    assert_eq!(fallback_group(false, AccountKind::Roth), 3);
    assert_eq!(fallback_group(true, AccountKind::Savings), 5);
    assert_eq!(fallback_group(true, AccountKind::Hsa), 9);
    assert!(fallback_group(false, AccountKind::Hsa) < fallback_group(true, AccountKind::Savings));
}
