use filtrs::{prepare, SmoothError};
use whittaker_eilers::WhittakerSmoother;

fn bits(v: &[f64]) -> Vec<u64> {
    v.iter().map(|x| x.to_bits()).collect()
}

fn solve(y: &[f64], x: Option<&[f64]>, lambda: f64, order: u64) -> Result<Vec<f64>, SmoothError> {
    let yb = bits(y);
    let xb = x.map(bits);
    let p = prepare(&yb, xb.as_ref(), order, lambda > 0.0)?;
    let w: Vec<f64> = p.weights.iter().map(|&w| w as f64).collect();
    let v: Vec<f64> = p.values.iter().map(|&b| f64::from_bits(b)).collect();
    let xs: Option<Vec<f64>> = x.map(|s| s.to_vec());
    let s = WhittakerSmoother::new(lambda, p.order, v.len(), xs.as_ref(), Some(&w))
        .map_err(|_| SmoothError::SingularSystem)?;
    s.smooth(&v).map_err(|_| SmoothError::SingularSystem)
}

fn diff_variance(v: &[f64]) -> f64 {
    let d: Vec<f64> = v.windows(2).map(|w| w[1] - w[0]).collect();
    let m = d.iter().sum::<f64>() / d.len() as f64;
    d.iter().map(|x| (x - m) * (x - m)).sum::<f64>() / d.len() as f64
}

#[test]
fn smoothing_keeps_length() {
    let y = [3.0, 1.0, 4.0, 1.0, 5.0, 9.0, 2.0, 6.0];
    for order in 0..4u64 {
        assert_eq!(solve(&y, None, 10.0, order).unwrap().len(), y.len());
    }
}

#[test]
fn zero_lambda_reproduces_input() {
    let y = [3.0, 1.0, 4.0, 1.0, 5.0];
    let z = solve(&y, None, 0.0, 2).unwrap();
    for (a, b) in y.iter().zip(z.iter()) {
        assert!((a - b).abs() < 1e-9);
    }
}

#[test]
fn large_lambda_first_order_tends_to_constant() {
    let y = [1.0, 5.0, 2.0, 8.0, 3.0];
    let z = solve(&y, None, 1e8, 1).unwrap();
    for v in z.iter() {
        assert!((v - 3.8).abs() < 1e-3, "{}", v);
    }
}

#[test]
fn large_lambda_second_order_tends_to_line() {
    let y = [1.0, 3.0, 2.0, 5.0, 4.0, 7.0];
    let z = solve(&y, None, 1e8, 2).unwrap();
    for w in z.windows(3) {
        assert!((w[2] - 2.0 * w[1] + w[0]).abs() < 1e-4);
    }
}

#[test]
fn smoothing_twice_differs_from_once() {
    let y = [1.0, 2.0, 1.0, 2.0, 1.0, 2.0, 1.0];
    let once = solve(&y, None, 2.0, 2).unwrap();
    let twice = solve(&once, None, 2.0, 2).unwrap();
    assert!(once.iter().zip(twice.iter()).any(|(a, b)| (a - b).abs() > 1e-6));
}

#[test]
fn unit_positions_match_equal_spacing() {
    let y = [1.0, 2.0, 1.0, 2.0, 1.0, 2.0, 1.0];
    let x = [0.0, 1.0, 2.0, 3.0, 4.0, 5.0, 6.0];
    let a = solve(&y, Some(&x), 2.0, 1).unwrap();
    let b = solve(&y, None, 2.0, 1).unwrap();
    for (p, q) in a.iter().zip(b.iter()) {
        assert!((p - q).abs() < 1e-9);
    }
}

#[test]
fn missing_value_is_interpolated() {
    let y = [1.0, 2.0, 3.0, f64::NAN, 5.0, 6.0, 7.0];
    let z = solve(&y, None, 1.0, 2).unwrap();
    assert!((z[3] - 4.0).abs() < 1e-6, "{}", z[3]);
}

#[test]
fn alternating_signal_is_calmed() {
    let y = [1.0, 2.0, 1.0, 2.0, 1.0, 2.0, 1.0];
    let z = solve(&y, None, 2.0, 2).unwrap();
    assert_eq!(z.len(), 7);
    assert!(diff_variance(&z) < diff_variance(&y));
}

#[test]
fn solve_reports_validation_errors() {
    let y = [1.0, 2.0, 3.0];
    assert_eq!(solve(&y, None, 1.0, 3), Err(SmoothError::InvalidOrder));
    assert_eq!(solve(&y, Some(&[0.0, 0.0, 1.0]), 1.0, 1), Err(SmoothError::InvalidPositions));
}
