use engine::year_month::YearMonth;

#[test]
fn month_index_round_trips() {
    for (y, m) in [
        (1983, 8),
        (1987, 6),
        (2038, 8),
        (2042, 8),
        (2000, 1),
        (1999, 12),
    ] {
        let ym = YearMonth::new(y, m);
        assert_eq!(YearMonth::from_month_index(ym.month_index()), ym);
    }
}

#[test]
fn arithmetic_crosses_year_boundaries() {
    let nov = YearMonth::new(2025, 11);
    assert_eq!(nov.add_months(3), YearMonth::new(2026, 2));
    assert_eq!(nov.add_months(-10), YearMonth::new(2025, 1));
    assert_eq!(nov.add_months(-11), YearMonth::new(2024, 12));
    assert_eq!(nov.add_months(-12), YearMonth::new(2024, 11));
    assert_eq!(nov.add_years(10), YearMonth::new(2035, 11));
}

#[test]
fn months_until_is_signed() {
    let birth = YearMonth::new(1983, 8);
    let retirement = YearMonth::new(2038, 8);
    assert_eq!(birth.months_until(retirement), 55 * 12);
    assert_eq!(retirement.months_until(birth), -(55 * 12));
}

#[test]
fn ordering_follows_calendar() {
    assert!(YearMonth::new(2038, 8) < YearMonth::new(2042, 8));
    assert!(YearMonth::new(2025, 12) < YearMonth::new(2026, 1));
}

#[test]
#[should_panic(expected = "month must be in 1..=12")]
fn rejects_invalid_month() {
    YearMonth::try_new(2025, 13).expect("month must be in 1..=12");
}

#[test]
fn a_month_index_is_months_since_year_zero() {
    assert_eq!(YearMonth::new(0, 1).month_index(), 0);
    assert_eq!(YearMonth::new(2026, 1).month_index(), 2026 * 12);
    assert_eq!(YearMonth::new(2026, 12).month_index(), 2026 * 12 + 11);
}

#[test]
fn a_negative_index_lands_in_a_negative_year() {
    assert_eq!(YearMonth::from_month_index(-1), YearMonth::new(-1, 12));
    assert_eq!(YearMonth::from_month_index(-12), YearMonth::new(-1, 1));
    assert_eq!(YearMonth::from_month_index(-13), YearMonth::new(-2, 12));
}

#[test]
fn adding_then_subtracting_months_returns_to_the_start() {
    let start = YearMonth::new(2031, 3);
    for n in [-40i64, -13, -1, 0, 1, 11, 12, 100] {
        let there = start.add_months(n);
        assert_eq!(there.add_months(-n), start);
        assert_eq!(start.months_until(there), n);
    }
}

#[test]
fn try_new_accepts_every_calendar_month() {
    for m in 1..=12u8 {
        assert_eq!(YearMonth::try_new(2030, m), Some(YearMonth::new(2030, m)));
    }
    assert_eq!(YearMonth::try_new(2030, 0), None);
    assert_eq!(YearMonth::try_new(2030, 85), None);
}

#[test]
fn before_max_and_min_follow_the_calendar() {
    let a = YearMonth::new(2025, 12);
    let b = YearMonth::new(2026, 1);
    assert!(a.is_before(b));
    assert!(!b.is_before(a));
    assert!(!a.is_before(a));
    assert_eq!(a.max(b), b);
    assert_eq!(b.max(a), b);
    assert_eq!(a.min(b), a);
    assert_eq!(b.min(a), a);
}

#[test]
fn a_month_reads_as_year_dash_month() {
    assert_eq!(YearMonth::new(2038, 8).to_text(), "2038-08");
    assert_eq!(YearMonth::new(2025, 12).to_text(), "2025-12");
    assert_eq!(YearMonth::new(5, 1).to_text(), "0005-01");
    assert_eq!(YearMonth::new(-5, 1).to_text(), "-005-01");
    assert_eq!(YearMonth::new(198_308, 6).to_text(), "198308-06");
    assert_eq!(YearMonth { year: 2040, month: 85 }.to_text(), "2040-85");
}
