use engine::person::Person;
use engine::plan::{default_plan_end_age, PeriodLength, SimConfig, Timeline, DEFAULT_PLAN_END_AGE};
use engine::year_month::YearMonth;

fn person(id: &str, name: &str, birth: (i32, u8), retirement: (i32, u8), life: u8) -> Person {
    Person {
        id: id.to_string(),
        name: name.to_string(),
        birth: YearMonth::new(birth.0, birth.1),
        retirement: YearMonth::new(retirement.0, retirement.1),
        life_expectancy_age: life,
    }
}

fn seed_people() -> Vec<Person> {
    vec![
        person("alex", "Alex", (1983, 8), (2038, 8), 88),
        person("jordan", "Jordan", (1987, 6), (2042, 8), 96),
    ]
}

fn seed_timeline() -> Timeline {
    Timeline {
        people: seed_people(),
        sim_config: SimConfig {
            start: YearMonth::new(2026, 1),
            period: PeriodLength::Year,
            display_real_dollars: false,
        },
    }
}

#[test]
fn first_full_period_at_or_after_is_inclusive_on_a_period_start() {
    let config = SimConfig {
        start: YearMonth::new(2026, 1),
        period: PeriodLength::Year,
        display_real_dollars: false,
    };
    assert_eq!(
        config.first_full_period_at_or_after(YearMonth::new(2020, 6)),
        0
    );
    assert_eq!(
        config.first_full_period_at_or_after(YearMonth::new(2026, 1)),
        0
    );
    assert_eq!(
        config.first_full_period_at_or_after(YearMonth::new(2038, 8)),
        13
    );
    assert_eq!(config.first_period_after(YearMonth::new(2038, 8)), 13);
    assert_eq!(
        config.first_full_period_at_or_after(YearMonth::new(2039, 1)),
        13
    );
    assert_eq!(config.first_period_after(YearMonth::new(2039, 1)), 14);
}

#[test]
fn the_helpers_read_a_stub_period_zero_as_the_partial_year_it_is() {
    let config = SimConfig {
        start: YearMonth::new(2026, 9),
        period: PeriodLength::Year,
        display_real_dollars: false,
    };
    assert_eq!(config.first_period_after(YearMonth::new(2020, 6)), 0);
    assert_eq!(
        config.first_full_period_at_or_after(YearMonth::new(2020, 6)),
        1
    );
    assert_eq!(config.first_period_after(YearMonth::new(2026, 9)), 1);
    assert_eq!(
        config.first_full_period_at_or_after(YearMonth::new(2026, 9)),
        1
    );
    assert_eq!(config.first_period_after(YearMonth::new(2026, 11)), 1);
    assert_eq!(
        config.first_full_period_at_or_after(YearMonth::new(2026, 11)),
        1
    );
    assert_eq!(config.first_period_after(YearMonth::new(2027, 1)), 2);
    assert_eq!(
        config.first_full_period_at_or_after(YearMonth::new(2027, 1)),
        1
    );
    assert_eq!(config.first_period_after(YearMonth::new(2038, 8)), 13);
    assert_eq!(
        config.first_full_period_at_or_after(YearMonth::new(2038, 8)),
        13
    );
}

#[test]
fn a_period_is_a_year_or_a_month() {
    assert_eq!(PeriodLength::Year.months(), 12);
    assert_eq!(PeriodLength::Month.months(), 1);
    assert_eq!(default_plan_end_age(), DEFAULT_PLAN_END_AGE);
    assert_eq!(DEFAULT_PLAN_END_AGE, 95);
}

#[test]
fn the_plan_ends_with_the_last_death() {
    let t = seed_timeline();
    // Jordan, born June 1987, is expected to live to 96: June 2083.
    assert_eq!(t.end_month(), YearMonth::new(2083, 6));
}

#[test]
fn the_first_death_is_the_earliest_and_leaves_the_other_behind() {
    let t = seed_timeline();
    // Alex, born August 1983, to 88: August 2071.
    let (month, who) = t.first_death().expect("two people, one dies first");
    assert_eq!(month, YearMonth::new(2071, 8));
    assert_eq!(who.id, "alex");
    let living = t.survivors_after(month);
    assert_eq!(living.len(), 1);
    assert_eq!(living[0].id, "jordan");
}

#[test]
fn one_person_has_no_first_death_to_survive() {
    let mut t = seed_timeline();
    t.people.truncate(1);
    assert!(t.first_death().is_none());
}

#[test]
fn people_are_found_by_id() {
    let t = seed_timeline();
    assert_eq!(t.person_index(&"jordan".to_string()), Some(1));
    assert_eq!(t.person(&"alex".to_string()).map(|p| p.name.clone()), Some("Alex".to_string()));
    assert!(t.person(&"nobody".to_string()).is_none());
    assert_eq!(t.birth_years(), vec![1983, 1987]);
}

#[test]
fn a_month_at_age_is_the_birth_month_that_many_years_on() {
    let p = person("alex", "Alex", (1983, 8), (2038, 8), 88);
    assert_eq!(p.month_at_age(55), YearMonth::new(2038, 8));
    assert_eq!(p.death(), YearMonth::new(2071, 8));
    // 59½ is 714 months after birth: February 2043.
    assert_eq!(p.penalty_free_month(), YearMonth::new(2043, 2));
}
