use engine::person::Person;
use engine::plan::{PeriodLength, SimConfig, Timeline};
use engine::tax::{return_for_period, FilingStatus, TaxReturn};
use engine::year_month::YearMonth;

fn seed_timeline() -> Timeline {
    Timeline {
        people: vec![
            Person {
                id: "alex".to_string(),
                name: "Alex".to_string(),
                birth: YearMonth::new(1983, 8),
                retirement: YearMonth::new(2038, 8),
                life_expectancy_age: 88,
            },
            Person {
                id: "jordan".to_string(),
                name: "Jordan".to_string(),
                birth: YearMonth::new(1987, 6),
                retirement: YearMonth::new(2042, 8),
                life_expectancy_age: 96,
            },
        ],
        sim_config: SimConfig {
            start: YearMonth::new(2026, 1),
            period: PeriodLength::Year,
            display_real_dollars: false,
        },
    }
}

#[test]
fn the_survivors_return_carries_only_the_survivor() {
    let t = seed_timeline();
    // Alex (born 1983) is expected to die at 88, Jordan (born 1987) at 96.
    assert_eq!(t.birth_years(), vec![1983, 1987]);
    assert_eq!(t.survivor_filer_birth_years(), vec![1987]);
    assert!(t.survivor_from(FilingStatus::MarriedFilingJointly).is_some());
}

#[test]
fn a_plan_with_no_survivor_transition_keeps_its_filers() {
    let mut t = seed_timeline();
    t.people.truncate(1);
    assert_eq!(t.birth_years(), vec![1983]);
    assert_eq!(t.survivor_filer_birth_years(), vec![1983]);
    assert!(t.survivor_from(FilingStatus::MarriedFilingJointly).is_none());
}

#[test]
fn the_survivors_return_starts_the_period_after_the_first_death() {
    let t = seed_timeline();
    // Alex dies August 2071, in period 45; period 46 is the first Single year.
    assert_eq!(t.survivor_from(FilingStatus::MarriedFilingJointly), Some(46));
    assert_eq!(t.survivor_from(FilingStatus::Single), None);
    assert_eq!(return_for_period(Some(46), 45), TaxReturn::Household);
    assert_eq!(return_for_period(Some(46), 46), TaxReturn::Survivor);
    assert_eq!(return_for_period(None, 99), TaxReturn::Household);
}
