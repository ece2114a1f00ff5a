use engine::monte_carlo::{
    count_succeeded, early_window, failure_shape, retirement_period,
    EARLY_RETIREMENT_WINDOW_YEARS,
};
use engine::person::Person;
use engine::plan::{PeriodLength, SimConfig, Timeline};
use engine::sim::{calendar_period, overlap_months, period_count};
use engine::year_month::YearMonth;

fn seed_timeline() -> Timeline {
    Timeline {
        people: vec![
            Person {
                id: "alex".to_string(),
                name: "Alex".to_string(),
                birth: YearMonth::new(1983, 8),
                retirement: YearMonth::new(2038, 8),
                life_expectancy_age: 88,
            },
            Person {
                id: "jordan".to_string(),
                name: "Jordan".to_string(),
                birth: YearMonth::new(1987, 6),
                retirement: YearMonth::new(2042, 8),
                life_expectancy_age: 96,
            },
        ],
        sim_config: SimConfig {
            start: YearMonth::new(2026, 1),
            period: PeriodLength::Year,
            display_real_dollars: false,
        },
    }
}

#[test]
fn one_period_per_calendar_year_touched() {
    // January 2026 up to (not including) June 2083.
    assert_eq!(period_count(YearMonth::new(2026, 1), YearMonth::new(2083, 6)), 58);
    // Ending in January opens no period for that year.
    assert_eq!(period_count(YearMonth::new(2026, 1), YearMonth::new(2030, 1)), 4);
    assert_eq!(period_count(YearMonth::new(2026, 9), YearMonth::new(2027, 2)), 2);
    assert_eq!(period_count(YearMonth::new(2026, 9), YearMonth::new(2026, 9)), 0);
}

#[test]
fn period_zero_is_a_stub_and_the_rest_are_calendar_years() {
    let start = YearMonth::new(2026, 9);
    assert_eq!(calendar_period(start, 0), (YearMonth::new(2026, 9), YearMonth::new(2027, 1)));
    assert_eq!(calendar_period(start, 1), (YearMonth::new(2027, 1), YearMonth::new(2028, 1)));
    assert_eq!(calendar_period(start, 12), (YearMonth::new(2038, 1), YearMonth::new(2039, 1)));
}

#[test]
fn a_window_prorates_the_period_it_overlaps() {
    let (s, e) = (YearMonth::new(2038, 1), YearMonth::new(2039, 1));
    // Alex's salary runs to his August 2038 retirement: seven months.
    assert_eq!(overlap_months(s, e, YearMonth::new(2026, 1), YearMonth::new(2038, 8)), 7);
    assert_eq!(overlap_months(s, e, YearMonth::new(2040, 1), YearMonth::new(2050, 1)), 0);
    assert_eq!(overlap_months(s, e, YearMonth::new(2000, 1), YearMonth::new(2050, 1)), 12);
}

#[test]
fn the_early_window_is_five_years_of_periods() {
    assert_eq!(EARLY_RETIREMENT_WINDOW_YEARS, 5);
    assert_eq!(early_window(PeriodLength::Year), 5);
    assert_eq!(early_window(PeriodLength::Month), 60);
}

#[test]
fn the_load_starts_in_the_first_full_year_of_the_first_retirement() {
    let t = seed_timeline();
    // Alex retires in August 2038; 2039 is period 13.
    assert_eq!(retirement_period(&t, 58), Some(13));
    assert_eq!(retirement_period(&t, 13), None);
    let mut alone = seed_timeline();
    alone.people.clear();
    assert_eq!(retirement_period(&alone, 58), None);
}

#[test]
fn failures_split_at_the_close_of_the_early_window() {
    let depleted = vec![None, Some(2), Some(14), Some(18), Some(30), None, Some(14)];
    let shape = failure_shape(&depleted, 40, Some(13), 5);
    assert_eq!(shape.depletion_histogram.len(), 40);
    assert_eq!(shape.depletion_histogram[14], 2);
    assert_eq!(shape.depletion_histogram[2], 1);
    assert_eq!(shape.depletion_histogram.iter().sum::<u32>(), 5);
    // Before period 18: 2, 14, 14. From it on: 18, 30.
    assert_eq!(shape.early_failures, 3);
    assert_eq!(shape.late_failures, 2);
    assert_eq!(count_succeeded(&depleted), 2);

    let no_retirement = failure_shape(&depleted, 40, None, 5);
    assert_eq!(no_retirement.early_failures, 0);
    assert_eq!(no_retirement.late_failures, 0);
}
