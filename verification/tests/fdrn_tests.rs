use colour_math_ng::proportion::UFDRNumber;

fn ufdrn(value: f64) -> UFDRNumber {
    UFDRNumber((value * u64::MAX as f64) as u128)
}

fn as_f64(number: UFDRNumber) -> f64 {
    number.0 as f64 / u64::MAX as f64
}

#[test]
fn ufdrn_div() {
    for [lhs, rhs] in &[
        [1.1_f64, 3.0],
        [0.0, 0.3],
        [1.024, 0.5],
        [0.18, 0.5],
    ] {
        let expected = ufdrn(lhs / rhs);
        println!("{:?} / {:?} = {:?} {:?}", lhs, rhs, lhs / rhs, expected);
        let result = ufdrn(*lhs) / ufdrn(*rhs);
        println!(
            "{:?} : {:?} diff = {:#X}",
            result,
            expected,
            result.abs_diff(&expected).0
        );
        assert!(result.approx_eq(&expected, Some(0x4)));
    }
}

#[test]
fn ufdrn_add() {
    for [a, b] in &[
        [0.0f64, 0.3],
        [0.024, 0.5],
        [0.18, 0.5],
        [0.5, 0.8],
        [1.5, 0.6],
    ] {
        let expected = ufdrn(a + b);
        println!("{:?} + {:?} = {:?} {:?}", a, b, ufdrn(a + b), expected);
        let result = ufdrn(*a) + ufdrn(*b);
        println!("diff = {:#X}", result.abs_diff(&expected).0);
        assert!(result.approx_eq(&expected, Some(0x801)));
        assert!((as_f64(result) - (a + b)).abs() < 0.000_000_01);
    }
}

#[test]
fn ufdrn_sub() {
    for [a, b] in &[
        [0.5f64, 0.3],
        [0.524, 0.5],
        [0.18, 0.15],
        [0.5, 0.08],
        [1.2, 1.1],
    ] {
        let expected = ufdrn(a - b);
        println!("{:?} - {:?} = {:?} {:?}", a, b, a - b, expected);
        let result = ufdrn(*a) - ufdrn(*b);
        println!("diff = {:#X}", result.abs_diff(&expected).0);
        assert!(result.approx_eq(&expected, Some(257)));
        assert!((as_f64(result) - (a - b)).abs() < 0.000_000_01);
    }
}

#[test]
fn ufdrn_div_u8() {
    for (a, b) in &[(0.9_f64, 3_u8), (0.6, 2), (0.3, 2)] {
        let expected = ufdrn(*a / *b as f64);
        println!("{:?} / {:?} = {:?} : {:?}", a, b, a / *b as f64, expected);
        let result = ufdrn(*a) / *b;
        println!("diff = {:#X}", result.abs_diff(&expected).0);
        assert!(result.approx_eq(&expected, Some(0x156)));
        assert!((as_f64(result) - (a / *b as f64)).abs() < 0.000_000_01);
    }
}
