use polars_talib::aroon::{aroon_columns, aroon_kernel, AroonRecency};
use polars_talib::params::{ArronKwargs, IndicatorError};

#[test]
fn lockstep_rising_prices() {
    let high: Vec<i64> = vec![1, 2, 3, 4, 5];
    let low: Vec<i64> = vec![1, 2, 3, 4, 5];
    let out = aroon_columns(&high, &low, &ArronKwargs { timeperiod: 2 }).unwrap();
    assert_eq!(out.denominator, 2);
    assert_eq!(out.aroonup, vec![None, None, Some(200), Some(200), Some(200)]);
    assert_eq!(out.aroondown, vec![None, None, Some(0), Some(0), Some(0)]);
}

#[test]
fn exact_values_on_mixed_series() {
    let high: Vec<i64> = vec![2, 7, 3, 4, 1];
    let low: Vec<i64> = vec![2, 1, 3, 1, 0];
    let out = aroon_columns(&high, &low, &ArronKwargs { timeperiod: 2 }).unwrap();
    assert_eq!(out.aroonup, vec![None, None, Some(100), Some(0), Some(100)]);
    assert_eq!(out.aroondown, vec![None, None, Some(100), Some(200), Some(200)]);
}

#[test]
fn output_length_equals_input_length() {
    let high: Vec<i64> = vec![4, 9, -2, 7, 7, 3, 11, 0, 5];
    let low: Vec<i64> = vec![1, 2, -5, 3, 6, 1, 8, -1, 2];
    for tp in 1..12 {
        let out = aroon_columns(&high, &low, &ArronKwargs { timeperiod: tp }).unwrap();
        assert_eq!(out.aroonup.len(), high.len());
        assert_eq!(out.aroondown.len(), high.len());
    }
}

#[test]
fn warm_up_is_undefined_and_rest_defined() {
    let high: Vec<i64> = vec![4, 9, -2, 7, 7, 3, 11, 0, 5];
    let low: Vec<i64> = vec![1, 2, -5, 3, 6, 1, 8, -1, 2];
    let out = aroon_columns(&high, &low, &ArronKwargs { timeperiod: 3 }).unwrap();
    for i in 0..high.len() {
        assert_eq!(out.aroonup[i].is_none(), i < 3);
        assert_eq!(out.aroondown[i].is_none(), i < 3);
    }
}

#[test]
fn short_input_is_all_undefined() {
    let high: Vec<i64> = vec![3, 1, 2];
    let low: Vec<i64> = vec![1, 0, 1];
    let out = aroon_columns(&high, &low, &ArronKwargs { timeperiod: 3 }).unwrap();
    assert_eq!(out.aroonup, vec![None, None, None]);
    assert_eq!(out.aroondown, vec![None, None, None]);
    let out = aroon_columns(&high, &low, &ArronKwargs { timeperiod: 14 }).unwrap();
    assert_eq!(out.aroonup, vec![None, None, None]);
    let empty: Vec<i64> = Vec::new();
    let out = aroon_columns(&empty, &empty, &ArronKwargs { timeperiod: 2 }).unwrap();
    assert!(out.aroonup.is_empty());
    assert!(out.aroondown.is_empty());
}

#[test]
fn values_stay_within_percent_range() {
    let high: Vec<i64> = vec![10, 3, 8, 8, 1, 12, 12, 5, 9, 2, 2, 7];
    let low: Vec<i64> = vec![5, 1, 4, 4, 0, 6, 6, 3, 5, 1, 1, 4];
    for tp in 1..6 {
        let out = aroon_columns(&high, &low, &ArronKwargs { timeperiod: tp }).unwrap();
        for v in out.aroonup.iter().chain(out.aroondown.iter()).flatten() {
            assert!(*v <= 100 * tp as u64);
        }
    }
}

#[test]
fn rising_highs_give_full_up() {
    let high: Vec<i64> = vec![-3, 0, 4, 9, 10, 20, 21];
    let low: Vec<i64> = vec![-4, -1, 1, 2, 8, 5, 20];
    let out = aroon_columns(&high, &low, &ArronKwargs { timeperiod: 4 }).unwrap();
    for i in 4..high.len() {
        assert_eq!(out.aroonup[i], Some(400));
    }
}

#[test]
fn tied_high_counts_from_most_recent() {
    let high: Vec<i64> = vec![5, 3, 5, 1];
    let low: Vec<i64> = vec![1, 1, 1, 1];
    let rec = aroon_kernel(&high, &low, 3);
    assert_eq!(rec, vec![AroonRecency { days_since_low: 0, days_since_high: 1 }]);
}

#[test]
fn tied_low_counts_from_most_recent() {
    let high: Vec<i64> = vec![9, 9, 9, 9, 9];
    let low: Vec<i64> = vec![2, 0, 4, 0, 3];
    let rec = aroon_kernel(&high, &low, 4);
    assert_eq!(rec, vec![AroonRecency { days_since_low: 1, days_since_high: 0 }]);
}

#[test]
fn kernel_yields_one_entry_per_full_window() {
    let high: Vec<i64> = vec![1, 2, 3, 4, 5, 6];
    let low: Vec<i64> = vec![1, 2, 3, 4, 5, 6];
    assert_eq!(aroon_kernel(&high, &low, 2).len(), 4);
    assert_eq!(aroon_kernel(&high, &low, 6).len(), 0);
    assert_eq!(aroon_kernel(&high, &low, 9).len(), 0);
}

#[test]
fn non_positive_period_is_rejected() {
    let high: Vec<i64> = vec![1, 2, 3];
    let low: Vec<i64> = vec![1, 2, 3];
    assert_eq!(
        aroon_columns(&high, &low, &ArronKwargs { timeperiod: 0 }),
        Err(IndicatorError::Configuration { timeperiod: 0 })
    );
    assert_eq!(
        aroon_columns(&high, &low, &ArronKwargs { timeperiod: -5 }),
        Err(IndicatorError::Configuration { timeperiod: -5 })
    );
}

#[test]
fn period_of_one_compares_neighbours() {
    let high: Vec<i64> = vec![3, 1, 4];
    let low: Vec<i64> = vec![3, 1, 4];
    let out = aroon_columns(&high, &low, &ArronKwargs { timeperiod: 1 }).unwrap();
    assert_eq!(out.aroonup, vec![None, Some(0), Some(100)]);
    assert_eq!(out.aroondown, vec![None, Some(100), Some(0)]);
}
