use hyperoperation::{hyperoperation, Hyperoperation, NumForKnuth};
use num_bigint::BigUint;

type KN = Hyperoperation<BigUint>;

fn big(n: u64) -> BigUint {
    BigUint::from(n)
}

#[test]
fn small() {
    let exprs: Vec<(KN, BigUint)> = vec![
        (KN::new(4u8.into(), 7u8.into(), 0), 28u32.into()),
        (KN::new(3u8.into(), 2u8.into(), 2), 27u8.into()),
        (KN::new(2u8.into(), 4u8.into(), 2), 65536u32.into()),
        (KN::new(2u8.into(), 3u8.into(), 3), 65536u32.into()),
        (KN::new(3u8.into(), 3u8.into(), 2), 7625597484987u64.into()),
    ];

    for (ex, res) in exprs {
        println!("Evaluating {}", ex.to_string());
        assert_eq!(ex.evaluate(), res);
    }
}

#[test]
fn biguint() {
    let result = KN::new(5u8.into(), 3u8.into(), 2).evaluate();
    println!("Result:\n{result}");
    assert_eq!(result % BigUint::from(100_000_000u32), 8203125u32.into())
}

#[test]
fn no_arrow_multiplies() {
    for a in 0u64..20 {
        for b in 0u64..20 {
            assert_eq!(hyperoperation::<u64>(&a, b, 0), a * b);
            assert_eq!(hyperoperation(&big(a), big(b), 0), big(a * b));
        }
    }
    assert_eq!(hyperoperation::<u64>(&4, 7, 0), 28);
    assert_eq!(hyperoperation::<u64>(&0, 0, 0), 0);
}

#[test]
fn second_operand_one_returns_first() {
    for arrows in 0u8..=6 {
        for a in 0u64..10 {
            assert_eq!(hyperoperation::<u64>(&a, 1, arrows), a);
            assert_eq!(hyperoperation(&big(a), big(1), arrows), big(a));
        }
    }
    assert_eq!(hyperoperation::<u64>(&9, 1, 255), 9);
}

#[test]
fn one_arrow_is_power() {
    for a in 0u64..8 {
        for b in 1u32..12 {
            assert_eq!(hyperoperation::<u64>(&a, b as u64, 1), a.pow(b));
            assert_eq!(hyperoperation(&big(a), big(b as u64), 1), big(a).pow(b));
        }
    }
    assert_eq!(hyperoperation::<u64>(&2, 10, 1), 1024);
}

#[test]
fn two_arrows_are_a_power_tower() {
    assert_eq!(hyperoperation::<u64>(&3, 2, 2), 27);
    assert_eq!(hyperoperation::<u64>(&2, 4, 2), 65536);
    assert_eq!(hyperoperation::<u64>(&3, 3, 2), 7625597484987);
    assert_eq!(hyperoperation::<u64>(&2, 3, 2), 16);
    assert_eq!(hyperoperation::<u64>(&4, 2, 2), 256);
}

#[test]
fn three_arrows() {
    assert_eq!(hyperoperation::<u64>(&2, 3, 3), 65536);
    assert_eq!(hyperoperation::<u64>(&2, 2, 3), 4);
    assert_eq!(hyperoperation::<u64>(&3, 2, 3), 7625597484987);
}

#[test]
fn recursion_identity_on_values() {
    // a ↑ⁿ b is a ↑ⁿ⁻¹ (a ↑ⁿ (b - 1))
    for arrows in 1u8..=2 {
        for b in 2u64..=3 {
            let inner = hyperoperation(&big(2), big(b - 1), arrows);
            let outer = hyperoperation(&big(2), inner, arrows - 1);
            assert_eq!(hyperoperation(&big(2), big(b), arrows), outer);
        }
    }
}

#[test]
fn base_zero_and_one() {
    assert_eq!(hyperoperation::<u64>(&0, 5, 1), 0);
    assert_eq!(hyperoperation::<u64>(&0, 1, 3), 0);
    assert_eq!(hyperoperation::<u64>(&1, 200, 1), 1);
    assert_eq!(hyperoperation::<u64>(&1, 7, 4), 1);
    assert_eq!(hyperoperation(&big(0), big(5), 1), big(0));
}

#[test]
fn results_at_the_limit_of_the_type() {
    assert_eq!(hyperoperation::<u8>(&15, 17, 0), 255);
    assert_eq!(hyperoperation::<u8>(&3, 5, 1), 243);
    assert_eq!(hyperoperation::<u8>(&2, 3, 2), 16);
    assert_eq!(hyperoperation::<u64>(&u64::MAX, 1, 0), u64::MAX);
    assert_eq!(hyperoperation::<u64>(&u64::MAX, 1, 2), u64::MAX);
    assert_eq!(hyperoperation::<u128>(&2, 127, 1), 1u128 << 127);
}

#[test]
fn counts_up_to_the_largest_second_operand() {
    assert_eq!(hyperoperation::<u8>(&1, 255, 1), 1);
    assert_eq!(hyperoperation::<u8>(&1, 255, 2), 1);
    assert_eq!(hyperoperation::<u16>(&1, u16::MAX, 1), 1);
}

#[test]
fn every_unsigned_primitive() {
    assert_eq!(hyperoperation::<u8>(&2, 3, 2), 16);
    assert_eq!(hyperoperation::<u16>(&2, 15, 1), 32768);
    assert_eq!(hyperoperation::<u32>(&2, 4, 2), 65536);
    assert_eq!(hyperoperation::<u64>(&3, 3, 2), 7625597484987);
    assert_eq!(hyperoperation::<u128>(&3, 3, 2), 7625597484987);
    assert_eq!(hyperoperation::<usize>(&2, 4, 2), 65536);
}

#[test]
fn big_result_beyond_fixed_width() {
    // 2 ↑↑ 5 = 2^65536
    let result = hyperoperation(&big(2), big(5), 2);
    assert_eq!(result, big(2).pow(65536));
    assert_eq!(result.bits(), 65537);
}

#[test]
fn struct_and_function_agree() {
    let expr = Hyperoperation::<u64>::new(3, 3, 2);
    assert_eq!(expr.num_a, 3);
    assert_eq!(expr.num_b, 3);
    assert_eq!(expr.arrows, 2);
    let copy = expr.clone();
    assert_eq!(expr.evaluate(), hyperoperation::<u64>(&3, 3, 2));
    assert_eq!(copy.evaluate(), 7625597484987);
}

#[test]
fn number_operations_on_primitives() {
    assert_eq!(<u32 as NumForKnuth>::one(), 1);
    assert_eq!(NumForKnuth::times(6u32, &7), 42);
    assert_eq!(NumForKnuth::plus(6u32, 7), 13);
    assert_eq!(NumForKnuth::minus(7u32, 6), 1);
    assert!(NumForKnuth::at_most(&6u32, &7));
    assert!(NumForKnuth::at_most(&7u32, &7));
    assert!(!NumForKnuth::at_most(&8u32, &7));
}

#[test]
fn number_operations_on_biguint() {
    assert_eq!(<BigUint as NumForKnuth>::one(), big(1));
    assert_eq!(NumForKnuth::times(big(6), &big(7)), big(42));
    assert_eq!(NumForKnuth::plus(big(6), big(7)), big(13));
    assert_eq!(NumForKnuth::minus(big(7), big(6)), big(1));
    assert!(NumForKnuth::at_most(&big(6), &big(7)));
    assert!(NumForKnuth::at_most(&big(7), &big(7)));
    assert!(!NumForKnuth::at_most(&big(8), &big(7)));
    let wide = big(u64::MAX);
    assert_eq!(
        NumForKnuth::times(wide.clone(), &wide),
        BigUint::from(u64::MAX as u128 * u64::MAX as u128)
    );
}
