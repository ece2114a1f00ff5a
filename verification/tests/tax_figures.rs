use engine::tax_figures::{
    AmountCheck, CeilingCheck, LimitsCheck, RungCheck, StatusFiguresCheck, TaxFiguresCheck,
};

fn amount(value: f64) -> AmountCheck {
    AmountCheck { usable: value.is_finite() && value >= 0.0, shown: format!("{value}") }
}

fn order_key(value: f64) -> i64 {
    let bits = value.to_bits();
    let magnitude = (bits & 0x7FFF_FFFF_FFFF_FFFF) as i64;
    if bits >> 63 == 0 {
        magnitude
    } else {
        -magnitude
    }
}

fn rungs(raw: &[(Option<f64>, f64)]) -> Vec<RungCheck> {
    raw.iter()
        .map(|&(up_to, rate)| RungCheck {
            up_to: up_to.map(|u| CeilingCheck {
                finite: u.is_finite(),
                key: order_key(u),
                shown: format!("{u}"),
            }),
            rate_in_range: (0.0..=1.0).contains(&rate),
            rate_shown: format!("{rate}"),
        })
        .collect()
}

struct Figures {
    tax_year: i32,
    deduction: [f64; 2],
    additional_65: [f64; 2],
    ordinary: [Vec<(Option<f64>, f64)>; 2],
    capital_gains: [Vec<(Option<f64>, f64)>; 2],
    limits: [f64; 12],
}

/// The 2026 figures.
fn built_in() -> Figures {
    Figures {
        tax_year: 2026,
        deduction: [16_100.0, 32_200.0],
        additional_65: [2_050.0, 1_650.0],
        ordinary: [
            vec![
                (Some(12_400.0), 0.10),
                (Some(50_400.0), 0.12),
                (Some(105_700.0), 0.22),
                (Some(201_775.0), 0.24),
                (Some(256_225.0), 0.32),
                (Some(640_600.0), 0.35),
                (None, 0.37),
            ],
            vec![
                (Some(24_800.0), 0.10),
                (Some(100_800.0), 0.12),
                (Some(211_400.0), 0.22),
                (Some(403_550.0), 0.24),
                (Some(512_450.0), 0.32),
                (Some(768_700.0), 0.35),
                (None, 0.37),
            ],
        ],
        capital_gains: [
            vec![(Some(49_450.0), 0.0), (Some(545_500.0), 0.15), (None, 0.20)],
            vec![(Some(98_900.0), 0.0), (Some(613_700.0), 0.15), (None, 0.20)],
        ],
        limits: [
            24_500.0, 8_000.0, 11_250.0, 7_500.0, 1_100.0, 72_000.0, 24_500.0, 4_400.0, 72_000.0,
            17_000.0, 4_000.0, 5_250.0,
        ],
    }
}

fn check(f: &Figures) -> TaxFiguresCheck {
    let status = |i: usize| StatusFiguresCheck {
        standard_deduction: amount(f.deduction[i]),
        additional_standard_deduction_65: amount(f.additional_65[i]),
        ordinary_brackets: rungs(&f.ordinary[i]),
        capital_gains_brackets: rungs(&f.capital_gains[i]),
    };
    let l = &f.limits;
    TaxFiguresCheck {
        tax_year: f.tax_year,
        single: status(0),
        married_filing_jointly: status(1),
        contribution_limits: LimitsCheck {
            employer_plan: amount(l[0]),
            employer_plan_catch_up_50: amount(l[1]),
            employer_plan_catch_up_60_63: amount(l[2]),
            ira: amount(l[3]),
            ira_catch_up_50: amount(l[4]),
            annual_additions: amount(l[5]),
            plan_457b: amount(l[6]),
            hsa: amount(l[7]),
            sep_ira: amount(l[8]),
            simple_ira: amount(l[9]),
            simple_ira_catch_up_50: amount(l[10]),
            simple_ira_catch_up_60_63: amount(l[11]),
        },
    }
}

#[test]
fn built_in_figures_are_valid() {
    assert_eq!(check(&built_in()).validate(), Vec::<String>::new());
}

#[test]
fn validation_names_each_problem() {
    let mut figures = built_in();
    figures.tax_year = 26;
    figures.limits[3] = -1.0;
    figures.ordinary[0][1].0 = Some(1_000.0);
    figures.capital_gains[1][2].0 = Some(1e9);
    figures.ordinary[1][0].1 = 22.0;

    let errors = check(&figures).validate().join("\n");
    for expected in [
        "tax_year 26",
        "contribution_limits.ira",
        "ordinary_brackets.single: bracket 2 ceiling 1000",
        "capital_gains_brackets.married_filing_jointly: the last bracket",
        "ordinary_brackets.married_filing_jointly: bracket 1 rate 22",
    ] {
        assert!(errors.contains(expected), "missing {expected:?} in:\n{errors}");
    }
}

#[test]
fn each_problem_is_one_sentence_in_order() {
    let mut figures = built_in();
    figures.tax_year = 26;
    figures.limits[3] = -1.0;
    figures.ordinary[0][1].0 = Some(1_000.0);
    assert_eq!(
        check(&figures).validate(),
        vec![
            "tax_year 26 is not a plausible year".to_string(),
            "ordinary_brackets.single: bracket 2 ceiling 1000 must be above 12400".to_string(),
            "contribution_limits.ira must be zero or more, not -1".to_string(),
        ]
    );
}

#[test]
fn a_ceiling_is_held_to_the_last_one_that_rose() {
    let mut figures = built_in();
    // The second ceiling falls back and is refused; the third is then held
    // to the first, which it clears.
    figures.capital_gains[0] = vec![
        (Some(50_000.0), 0.0),
        (Some(40_000.0), 0.15),
        (Some(45_000.0), 0.15),
        (Some(45_000.0), 0.15),
        (None, 0.20),
    ];
    assert_eq!(
        check(&figures).validate(),
        vec![
            "capital_gains_brackets.single: bracket 2 ceiling 40000 must be above 50000".to_string(),
            "capital_gains_brackets.single: bracket 3 ceiling 45000 must be above 50000".to_string(),
            "capital_gains_brackets.single: bracket 4 ceiling 45000 must be above 50000".to_string(),
        ]
    );
}

#[test]
fn a_schedule_needs_brackets_and_an_open_top() {
    let mut figures = built_in();
    figures.ordinary[1] = vec![];
    figures.capital_gains[1] = vec![(None, 0.0), (Some(1.0), 1.5)];
    figures.deduction[0] = f64::NAN;
    assert_eq!(
        check(&figures).validate(),
        vec![
            "standard_deduction.single must be zero or more, not NaN".to_string(),
            "ordinary_brackets.married_filing_jointly has no brackets".to_string(),
            "capital_gains_brackets.married_filing_jointly: the last bracket must have `up_to: null` (no ceiling)"
                .to_string(),
            "capital_gains_brackets.married_filing_jointly: only the last bracket may have `up_to: null` (bracket 1)"
                .to_string(),
            "capital_gains_brackets.married_filing_jointly: bracket 2 rate 1.5 must be between 0 and 1 (0.22 means 22%)"
                .to_string(),
        ]
    );
}

#[test]
fn a_first_ceiling_of_zero_is_not_above_zero() {
    let mut figures = built_in();
    figures.capital_gains[0][0].0 = Some(-0.0);
    assert_eq!(
        check(&figures).validate(),
        vec!["capital_gains_brackets.single: bracket 1 ceiling -0 must be above 0".to_string()]
    );
}
