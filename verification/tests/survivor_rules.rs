use engine::account::{AccountKind, PlanType};
use engine::limits::{catch_up, employer_catch_up, migrated_plan_type, CatchUp};
use engine::person::Person;
use engine::plan::{PeriodLength, SimConfig, Timeline};
use engine::presets::required_divisor_tenths;
use engine::stream::{migrated_sweep, StreamBoundary, StreamKind};
use engine::survivor::{
    benefit_end, benefit_owners, stream_window, survivor_benefit_start, survivor_share_start,
    survivor_transition, StreamWindow, SurvivorTransition,
};
use engine::year_month::YearMonth;

fn person(id: &str, name: &str, birth: (i32, u8), retirement: (i32, u8), life: u8) -> Person {
    Person {
        id: id.to_string(),
        name: name.to_string(),
        birth: YearMonth::new(birth.0, birth.1),
        retirement: YearMonth::new(retirement.0, retirement.1),
        life_expectancy_age: life,
    }
}

fn seed_timeline() -> Timeline {
    Timeline {
        people: vec![
            person("alex", "Alex", (1983, 8), (2038, 8), 88),
            person("jordan", "Jordan", (1987, 6), (2042, 8), 96),
        ],
        sim_config: SimConfig {
            start: YearMonth::new(2026, 1),
            period: PeriodLength::Year,
            display_real_dollars: false,
        },
    }
}

#[test]
fn the_first_death_leaves_one_survivor() {
    let t = seed_timeline();
    assert_eq!(
        survivor_transition(&t),
        Some(SurvivorTransition { death: YearMonth::new(2071, 8), decedent: 0, survivor: 1 })
    );
}

#[test]
fn two_survivors_leave_the_benefits_alone() {
    let mut t = seed_timeline();
    t.people.push(person("sam", "Sam", (1990, 1), (2050, 1), 90));
    assert_eq!(survivor_transition(&t), None);
    t.people.truncate(1);
    assert_eq!(survivor_transition(&t), None);
}

#[test]
fn a_survivors_own_benefit_stops_at_the_first_death() {
    let t = seed_timeline();
    let transition = survivor_transition(&t);
    let owners = benefit_owners(&t, &vec!["alex".to_string(), "nobody".to_string(), "jordan".to_string()]);
    assert_eq!(owners, vec![Some(0), None, Some(1)]);
    assert_eq!(benefit_end(&t, &transition, 0), StreamBoundary::AtDeath("alex".to_string()));
    assert_eq!(benefit_end(&t, &transition, 1), StreamBoundary::Date(YearMonth::new(2071, 8)));
    assert_eq!(benefit_end(&t, &None, 1), StreamBoundary::AtDeath("jordan".to_string()));
}

#[test]
fn the_survivor_benefit_starts_no_earlier_than_the_death() {
    let t = seed_timeline();
    let jordan = &t.people[1];
    let death = YearMonth::new(2071, 8);
    // Jordan's own claim at 70 (June 2057) is long past: the step-up is at the death.
    assert_eq!(survivor_benefit_start(jordan, death, Some(70)), death);
    // Claiming at 90 would not happen before June 2077.
    assert_eq!(survivor_benefit_start(jordan, death, Some(90)), YearMonth::new(2077, 6));
    // With no benefit of their own, the survivor inherits from the death.
    assert_eq!(survivor_benefit_start(jordan, death, None), death);
}

#[test]
fn a_survivor_share_begins_at_its_owners_death() {
    let t = seed_timeline();
    let alex = Some("alex".to_string());
    assert_eq!(survivor_share_start(&t, &alex, true), Some(YearMonth::new(2071, 8)));
    assert_eq!(survivor_share_start(&t, &alex, false), None);
    assert_eq!(survivor_share_start(&t, &None, true), None);
    assert_eq!(survivor_share_start(&t, &Some("nobody".to_string()), true), None);
}

#[test]
fn required_distributions_start_at_the_required_beginning_age() {
    // Born 1950: distributions from 72 (2022), divisor 27.4.
    assert_eq!(required_divisor_tenths(1950, 2021), None);
    assert_eq!(required_divisor_tenths(1950, 2022), Some(274));
    // Born 1955: from 73 (2028), divisor 26.5.
    assert_eq!(required_divisor_tenths(1955, 2027), None);
    assert_eq!(required_divisor_tenths(1955, 2028), Some(265));
    // Born 1983: from 75 (2058), divisor 24.6.
    assert_eq!(required_divisor_tenths(1983, 2057), None);
    assert_eq!(required_divisor_tenths(1983, 2058), Some(246));
}

#[test]
fn catch_up_tiers_follow_the_statute() {
    assert_eq!(employer_catch_up(49), CatchUp::Ineligible);
    assert_eq!(employer_catch_up(50), CatchUp::From50);
    assert_eq!(employer_catch_up(60), CatchUp::From60To63);
    assert_eq!(employer_catch_up(63), CatchUp::From60To63);
    assert_eq!(employer_catch_up(64), CatchUp::From50);
    assert_eq!(catch_up(PlanType::Uncapped, 70), None);
    assert_eq!(catch_up(PlanType::Ira, 62), Some(CatchUp::From50));
    assert_eq!(catch_up(PlanType::Hsa, 54), Some(CatchUp::Ineligible));
    assert_eq!(catch_up(PlanType::Hsa, 55), Some(CatchUp::From55));
    assert_eq!(catch_up(PlanType::SepIra, 61), Some(CatchUp::Ineligible));
    assert_eq!(catch_up(PlanType::SimpleIra, 61), Some(CatchUp::From60To63));
    assert_eq!(catch_up(PlanType::Plan457b, 51), Some(CatchUp::From50));
}

#[test]
fn legacy_plan_types_follow_the_kind_and_the_limit() {
    for (kind, expected) in [
        (AccountKind::Taxable, PlanType::Uncapped),
        (AccountKind::TraditionalPreTax, PlanType::EmployerPlan),
        (AccountKind::Roth, PlanType::Ira),
        (AccountKind::Savings, PlanType::Uncapped),
        (AccountKind::Hsa, PlanType::Hsa),
    ] {
        assert_eq!(migrated_plan_type(kind, None), expected);
    }
    // A taxable account stays uncapped even if a stale limit says otherwise.
    assert_eq!(migrated_plan_type(AccountKind::Taxable, Some(true)), PlanType::Uncapped);
    // A pre-tax account whose limit was the IRA's is a traditional IRA.
    assert_eq!(migrated_plan_type(AccountKind::TraditionalPreTax, Some(true)), PlanType::Ira);
    // A Roth 401(k) is the mirror case.
    assert_eq!(migrated_plan_type(AccountKind::Roth, Some(false)), PlanType::EmployerPlan);
}

#[test]
fn legacy_sweep_boolean_migrates_to_a_boundary() {
    assert_eq!(migrated_sweep(None, true), Some(StreamBoundary::PlanStart));
    assert_eq!(migrated_sweep(None, false), None);
}

#[test]
fn explicit_boundary_beats_the_legacy_boolean() {
    let explicit = Some(StreamBoundary::AtRetirement("alex".to_string()));
    assert_eq!(migrated_sweep(explicit.clone(), true), explicit);
    assert_eq!(migrated_sweep(explicit.clone(), false), explicit);
}

#[test]
fn a_stream_window_stops_at_the_owners_death_and_a_pension_grows_from_its_start() {
    let t = seed_timeline();
    let (start, end) = (YearMonth::new(2026, 1), YearMonth::new(2083, 6));
    let alex = Some("alex".to_string());
    // A pension from Alex's retirement to the plan end, with a survivor share.
    assert_eq!(
        stream_window(
            &t,
            &StreamBoundary::AtRetirement("alex".to_string()),
            &StreamBoundary::PlanEnd,
            &alex,
            true,
            StreamKind::Pension,
            start,
            end,
        ),
        Some(StreamWindow {
            start: YearMonth::new(2038, 8),
            end: YearMonth::new(2071, 8),
            anchor: YearMonth::new(2038, 8),
        })
    );
    // Without a survivor share the stream runs its own course, and a
    // general stream grows from the plan start.
    assert_eq!(
        stream_window(
            &t,
            &StreamBoundary::PlanStart,
            &StreamBoundary::PlanEnd,
            &alex,
            false,
            StreamKind::General,
            start,
            end,
        ),
        Some(StreamWindow { start, end, anchor: start })
    );
    // A boundary naming someone not on the plan resolves to nothing.
    assert_eq!(
        stream_window(
            &t,
            &StreamBoundary::AtDeath("sam".to_string()),
            &StreamBoundary::PlanEnd,
            &None,
            false,
            StreamKind::General,
            start,
            end,
        ),
        None
    );
}
