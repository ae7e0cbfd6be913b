use zkvm_air::openvm_stark_backend::field::{FieldAlgebra, F};

fn f(v: i32) -> F {
    F::from_i32(v)
}

fn show(x: F) -> String {
    format!("{:?}", x)
}

fn is(x: F, v: i32) -> bool {
    show(x) == show(f(v))
}

#[test]
fn constructors_hold_the_integer_given() {
    assert_eq!(show(F::new(5)), "F { value: 5 }");
    assert_eq!(show(F::from_i32(-5)), "F { value: -5 }");
    assert_eq!(show(F::zero()), "F { value: 0 }");
    assert_eq!(show(F::default()), "F { value: 0 }");
    assert_eq!(show(F::new(i32::MAX)), format!("F {{ value: {} }}", i32::MAX));
    assert_eq!(show(F::new(i32::MIN)), format!("F {{ value: {} }}", i32::MIN));
}

#[test]
fn zero_and_one_of_the_algebra() {
    assert!(is(<F as FieldAlgebra>::zero(), 0));
    assert!(is(<F as FieldAlgebra>::one(), 1));
}

#[test]
fn operators_compute_on_the_integers_held() {
    assert!(is(f(2) + f(3), 5));
    assert!(is(f(2) - f(3), -1));
    assert!(is(f(2) * f(3), 6));
    assert!(is(-f(2), -2));
    assert!(is(-f(0), 0));
    assert!(is(f(-7) * f(6), -42));
    assert!(is(f(1000) * f(1000), 1_000_000));
}

#[test]
fn operators_wrap_modulo_two_to_the_thirty_two() {
    assert!(is(f(i32::MAX) + f(1), i32::MIN));
    assert!(is(f(i32::MIN) - f(1), i32::MAX));
    assert!(is(-f(i32::MIN), i32::MIN));
    assert!(is(f(65536) * f(65536), 0));
    assert!(is(f(i32::MAX) * f(2), -2));
    assert!(is(f(100_000) * f(99_999), 1_409_965_408));
}

#[test]
fn assigning_operators_agree_with_the_operators() {
    let mut x = f(10);
    x += f(5);
    assert!(is(x, 15));
    x -= f(20);
    assert!(is(x, -5));
    x *= f(-3);
    assert!(is(x, 15));
    let mut y = f(i32::MAX);
    y += f(1);
    assert!(is(y, i32::MIN));
}

#[test]
fn sum_and_product_fold_from_zero_and_from_one() {
    let items = vec![f(1), f(2), f(3), f(4)];
    let sum: F = items.iter().copied().sum();
    let product: F = items.iter().copied().product();
    assert!(is(sum, 10));
    assert!(is(product, 24));
    let none: Vec<F> = Vec::new();
    let empty_sum: F = none.iter().copied().sum();
    let empty_product: F = none.iter().copied().product();
    assert!(is(empty_sum, 0));
    assert!(is(empty_product, 1));
    let wrapped: F = vec![f(i32::MAX), f(1)].into_iter().sum();
    assert!(is(wrapped, i32::MIN));
}

#[test]
fn ring_laws_on_samples() {
    let samples = [0, 1, -1, 2, 7, 65536, 123_456_789, i32::MAX, i32::MIN];
    for a in samples {
        assert!(is(f(a) + <F as FieldAlgebra>::zero(), a));
        assert!(is(f(a) * <F as FieldAlgebra>::one(), a));
        assert!(is(f(a) + (-f(a)), 0));
        assert!(is(f(a) - f(a), 0));
        assert!(is(f(a) * <F as FieldAlgebra>::zero(), 0));
        for b in samples {
            assert_eq!(show(f(a) + f(b)), show(f(b) + f(a)));
            assert_eq!(show(f(a) * f(b)), show(f(b) * f(a)));
            assert_eq!(show(f(a) - f(b)), show(f(a) + (-f(b))));
            assert_eq!(is(f(a) - f(b), 0), a == b);
            for c in samples {
                assert_eq!(show((f(a) + f(b)) + f(c)), show(f(a) + (f(b) + f(c))));
                assert_eq!(show((f(a) * f(b)) * f(c)), show(f(a) * (f(b) * f(c))));
                assert_eq!(show(f(a) * (f(b) + f(c))), show(f(a) * f(b) + f(a) * f(c)));
            }
        }
    }
}

#[test]
fn x_times_x_less_one_has_the_roots_zero_and_one_only() {
    let one = <F as FieldAlgebra>::one();
    for v in [0, 1] {
        assert!(is(f(v) * (f(v) - one), 0));
    }
    for v in [2, 3, -1, -2, 65536, 65537, 1 << 31, (1 << 30) + 1, i32::MAX, i32::MIN, 0x5555_5555] {
        assert!(!is(f(v) * (f(v) - one), 0));
    }
    assert!(is(f(2) * (f(2) - one), 2));
}

#[test]
fn a_clone_and_a_copy_are_the_same_element() {
    let x = f(77);
    let y = x;
    #[allow(clippy::clone_on_copy)]
    let z = x.clone();
    assert_eq!(show(x), show(y));
    assert_eq!(show(x), show(z));
}
