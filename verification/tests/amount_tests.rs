use resolution::amount::{MAX_MANTISSA, MAX_SCALE};
use resolution::Amount;
use rust_decimal::Decimal;
use std::str::FromStr;

fn amount(text: &str) -> Amount {
    let decimal = Decimal::from_str(text).expect("a decimal");
    Amount::new(decimal.mantissa(), decimal.scale()).expect("in range")
}

fn decimal(a: Amount) -> Decimal {
    Decimal::from_i128_with_scale(a.mantissa, a.scale)
}

/// `m * 10^k` where it is still a mantissa.
fn scaled(m: i128, k: u32) -> Option<i128> {
    let mut x = m;
    for _ in 0..k {
        x = x.checked_mul(10)?;
        if x.abs() > MAX_MANTISSA {
            return None;
        }
    }
    Some(x)
}

/// The exact sum as the library states it, computed independently.
fn expected_sum(a: Amount, b: Amount) -> Option<Amount> {
    if a.mantissa == 0 {
        return Some(b);
    }
    if b.mantissa == 0 {
        return Some(a);
    }
    let s = a.scale.max(b.scale);
    let x = scaled(a.mantissa, s - a.scale)?;
    let y = scaled(b.mantissa, s - b.scale)?;
    let z = x + y;
    if z.abs() > MAX_MANTISSA {
        return None;
    }
    Some(Amount { mantissa: z, scale: s })
}

fn samples() -> Vec<Amount> {
    let mantissas: [i128; 19] = [
        0,
        1,
        -1,
        5,
        9,
        10,
        -10,
        4_294_967_295,
        4_294_967_296,
        -4_294_967_297,
        18_446_744_073_709_551_615,
        18_446_744_073_709_551_616,
        -18_446_744_073_709_551_617,
        7_922_816_251_426_433_759_354_395_033,
        7_922_816_251_426_433_759_354_395_034,
        39_614_081_257_132_168_796_771_975_167,
        -39_614_081_257_132_168_796_771_975_168,
        MAX_MANTISSA,
        -MAX_MANTISSA,
    ];
    let scales: [u32; 9] = [0, 1, 2, 4, 9, 10, 19, 20, 28];
    let mut all = Vec::new();
    for m in mantissas {
        for s in scales {
            all.push(Amount { mantissa: m, scale: s });
        }
    }
    all
}

#[test]
fn new_accepts_exactly_the_range_of_the_decimal_type() {
    assert_eq!(Amount::new(222, 2), Some(Amount { mantissa: 222, scale: 2 }));
    assert_eq!(Amount::new(0, 28), Some(Amount { mantissa: 0, scale: 28 }));
    assert_eq!(Amount::new(0, 29), None);
    assert_eq!(
        Amount::new(MAX_MANTISSA, MAX_SCALE),
        Some(Amount { mantissa: MAX_MANTISSA, scale: 28 })
    );
    assert_eq!(
        Amount::new(-MAX_MANTISSA, 0),
        Some(Amount { mantissa: -MAX_MANTISSA, scale: 0 })
    );
    assert_eq!(Amount::new(MAX_MANTISSA + 1, 0), None);
    assert_eq!(Amount::new(-MAX_MANTISSA - 1, 0), None);
    assert_eq!(Amount::new(i128::MAX, 0), None);
    assert_eq!(Amount::new(i128::MIN, 0), None);
    assert_eq!(Amount::new(1, u32::MAX), None);
}

#[test]
fn new_agrees_with_the_decimal_type() {
    for (m, s) in [
        (MAX_MANTISSA, 0u32),
        (MAX_MANTISSA + 1, 0),
        (-MAX_MANTISSA, 28),
        (-MAX_MANTISSA - 1, 28),
        (1, 28),
        (1, 29),
    ] {
        assert_eq!(
            Amount::new(m, s).is_some(),
            Decimal::try_from_i128_with_scale(m, s).is_ok()
        );
    }
}

#[test]
fn zero_is_zero() {
    assert_eq!(Amount::zero(), Amount { mantissa: 0, scale: 0 });
    assert_eq!(decimal(Amount::zero()), Decimal::ZERO);
}

#[test]
fn sums_of_ordinary_amounts() {
    assert_eq!(amount("10.0").checked_add(amount("3.00")), Some(amount("13.00")));
    assert_eq!(amount("1.5").checked_add(amount("2.25")), Some(amount("3.75")));
    assert_eq!(amount("0").checked_add(amount("2.2200")), Some(amount("2.2200")));
    assert_eq!(amount("0.0000").checked_add(amount("7")), Some(amount("7")));
    assert_eq!(amount("7").checked_add(amount("0.0000")), Some(amount("7")));
    assert_eq!(amount("-1.5").checked_add(amount("1.50")), Some(amount("0.00")));
}

#[test]
fn differences_of_ordinary_amounts() {
    assert_eq!(amount("10.0").checked_sub(amount("3.00")), Some(amount("7.00")));
    assert_eq!(amount("0.0").checked_sub(amount("5.0")), Some(amount("-5.0")));
    assert_eq!(amount("0").checked_sub(amount("0.00")), Some(amount("0.00")));
    assert_eq!(amount("5.0").checked_sub(amount("0.000")), Some(amount("5.0")));
    assert_eq!(amount("5.0").checked_sub(amount("5.0")), Some(amount("0.0")));
    assert_eq!(amount("1").checked_sub(amount("2.5")), Some(amount("-1.5")));
}

#[test]
fn sums_that_are_not_exact_are_refused() {
    let max = Amount { mantissa: MAX_MANTISSA, scale: 0 };
    let one = Amount { mantissa: 1, scale: 0 };
    let tenth = Amount { mantissa: 1, scale: 1 };
    assert_eq!(max.checked_add(one), None);
    assert_eq!(max.checked_add(tenth), None);
    assert_eq!(max.negate().checked_sub(one), None);
    assert_eq!(max.checked_sub(one), Some(Amount { mantissa: MAX_MANTISSA - 1, scale: 0 }));
    assert!(!max.sum_is_exact(one));
    assert!(max.sum_is_exact(one.negate()));
    assert!(max.sum_is_exact(Amount { mantissa: 0, scale: 28 }));
}

#[test]
fn checked_add_gives_the_stated_sum_on_a_grid() {
    let all = samples();
    let mut exact = 0;
    for a in &all {
        for b in &all {
            let expected = expected_sum(*a, *b);
            assert_eq!(a.checked_add(*b), expected, "{:?} + {:?}", a, b);
            assert_eq!(a.sum_is_exact(*b), expected.is_some());
            if let Some(sum) = expected {
                exact += 1;
                assert_eq!(a.exact_add(*b), sum);
                assert_eq!(decimal(sum), decimal(*a) + decimal(*b));
            }
        }
    }
    assert!(exact > 1000);
}

#[test]
fn checked_sub_gives_the_stated_difference_on_a_grid() {
    let all = samples();
    let mut exact = 0;
    for a in &all {
        for b in &all {
            let expected = expected_sum(*a, b.negate());
            assert_eq!(a.checked_sub(*b), expected, "{:?} - {:?}", a, b);
            if let Some(difference) = expected {
                exact += 1;
                assert_eq!(a.exact_sub(*b), difference);
                assert_eq!(decimal(difference), decimal(*a) - decimal(*b));
            }
        }
    }
    assert!(exact > 1000);
}

#[test]
fn exceeds_orders_by_value() {
    assert!(amount("5.0").exceeds(amount("3.00")));
    assert!(!amount("3.00").exceeds(amount("5.0")));
    assert!(!amount("5.0").exceeds(amount("5.000")));
    assert!(amount("0").exceeds(amount("-0.0001")));
    assert!(!amount("-1").exceeds(amount("-0.5")));
    assert!(amount("0.0001").exceeds(amount("0")));
    let max = Amount { mantissa: MAX_MANTISSA, scale: 0 };
    let small = Amount { mantissa: MAX_MANTISSA, scale: 28 };
    assert!(max.exceeds(small));
    assert!(!small.exceeds(max));
    assert!(small.negate().exceeds(max.negate()));
}

#[test]
fn exceeds_agrees_with_exact_differences_on_a_grid() {
    let all = samples();
    for a in &all {
        for b in &all {
            if let Some(difference) = a.checked_sub(*b) {
                assert_eq!(a.exceeds(*b), difference.mantissa > 0, "{:?} > {:?}", a, b);
            }
            assert_eq!(a.exceeds(*b), decimal(*a) > decimal(*b));
        }
    }
}

#[test]
fn negate_flips_the_sign() {
    assert_eq!(amount("2.50").negate(), amount("-2.50"));
    assert_eq!(amount("-2.50").negate(), amount("2.50"));
    assert_eq!(amount("0.00").negate(), Amount { mantissa: 0, scale: 2 });
}

#[test]
fn to_text_writes_every_fractional_digit() {
    assert_eq!(amount("7.0").to_text(), "7.0");
    assert_eq!(amount("10").to_text(), "10");
    assert_eq!(amount("-5.0").to_text(), "-5.0");
    assert_eq!(amount("0.0001").to_text(), "0.0001");
    assert_eq!(Amount { mantissa: 0, scale: 2 }.to_text(), "0.00");
    assert_eq!(Amount { mantissa: 0, scale: 0 }.to_text(), "0");
    assert_eq!(Amount { mantissa: 123456, scale: 4 }.to_text(), "12.3456");
}

/// A small deterministic generator, so that the run is the same every time.
struct Generator(u64);

impl Generator {
    fn next(&mut self) -> u64 {
        self.0 = self
            .0
            .wrapping_mul(6364136223846793005)
            .wrapping_add(1442695040888963407);
        self.0 >> 11
    }

    fn amount(&mut self) -> Amount {
        let bits = self.next() % 97;
        let wide = ((self.next() as u128) << 53) ^ (self.next() as u128);
        let magnitude = if bits == 0 {
            0
        } else {
            (wide % (1u128 << bits)) as i128
        };
        let mantissa = if self.next() % 2 == 0 { magnitude } else { -magnitude };
        let scale = match self.next() % 4 {
            0 => (self.next() % 29) as u32,
            _ => (self.next() % 5) as u32,
        };
        Amount { mantissa, scale }
    }
}

#[test]
fn checked_add_and_sub_give_the_stated_results_on_many_amounts() {
    let mut generator = Generator(0x5eed);
    let mut exact = 0;
    let mut refused = 0;
    for _ in 0..200_000 {
        let a = generator.amount();
        let b = generator.amount();
        let sum = expected_sum(a, b);
        let difference = expected_sum(a, b.negate());
        assert_eq!(a.checked_add(b), sum, "{:?} + {:?}", a, b);
        assert_eq!(a.checked_sub(b), difference, "{:?} - {:?}", a, b);
        assert_eq!(a.exceeds(b), decimal(a) > decimal(b));
        match sum {
            Some(sum) => {
                exact += 1;
                assert_eq!(decimal(sum), decimal(a) + decimal(b));
            }
            None => refused += 1,
        }
        if let Some(difference) = difference {
            assert_eq!(a.exceeds(b), difference.mantissa > 0, "{:?} > {:?}", a, b);
        }
    }
    assert!(exact > 50_000);
    assert!(refused > 1_000);
}
