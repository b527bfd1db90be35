use arraymath::ScalarMath;

fn close(left: f64, right: f64) -> bool {
    (left - right).abs() < 1.0e-6
}

#[test]
fn test_adds() {
    let a = [1.2, 1.3, 1.4];
    let b = 2.1;
    let c = a.adds(b);
    let c_expected: [f64; 3] = [3.3, 3.4, 3.5];
    for i in 0..c.len() {
        assert!(close(c[i], c_expected[i]));
    }
}

#[test]
fn test_adds_assign() {
    let mut a = [1.2, 1.3, 1.4];
    let b = 2.1;
    a.adds_assign(b);
    let a_expected: [f64; 3] = [3.3, 3.4, 3.5];
    for i in 0..a.len() {
        assert!(close(a[i], a_expected[i]));
    }
}

#[test]
fn test_adds_into() {
    let a = [1.2, 1.3, 1.4];
    let b = 2.1;
    let mut c = [99.0, 99.0, 99.0];
    a.adds_into(b, &mut c);
    let c_expected: [f64; 3] = [3.3, 3.4, 3.5];
    for i in 0..a.len() {
        assert!(close(c[i], c_expected[i]));
    }
}

#[test]
fn test_subs() {
    let a = [1.2, 1.3, 1.4];
    let b = 2.1;
    let c = a.subs(b);
    let c_expected: [f64; 3] = [-0.9, -0.8, -0.7];
    for i in 0..c.len() {
        assert!(close(c[i], c_expected[i]));
    }
}

#[test]
fn test_subs_assign() {
    let mut a = [1.2, 1.3, 1.4];
    let b = 2.1;
    a.subs_assign(b);
    let a_expected: [f64; 3] = [-0.9, -0.8, -0.7];
    for i in 0..a.len() {
        assert!(close(a[i], a_expected[i]));
    }
}

#[test]
fn test_subs_into() {
    let a = [1.2, 1.3, 1.4];
    let b = 2.1;
    let mut c = [99.0, 99.0, 99.0];
    a.subs_into(b, &mut c);
    let c_expected: [f64; 3] = [-0.9, -0.8, -0.7];
    for i in 0..a.len() {
        assert!(close(c[i], c_expected[i]));
    }
}

#[test]
fn adds_on_integers_is_exact() {
    let a: [i32; 4] = [1, -2, 3, 0];
    assert_eq!(a.adds(10), [11, 8, 13, 10]);
    assert_eq!(a.adds(0), a);
    assert_eq!(a, [1, -2, 3, 0]);
}

#[test]
fn subs_on_integers_is_exact() {
    let a: [i32; 4] = [1, -2, 3, 0];
    assert_eq!(a.subs(10), [-9, -12, -7, -10]);
    assert_eq!(a.subs(0), a);
    assert_eq!(a, [1, -2, 3, 0]);
}

#[test]
fn adds_assign_on_integers_is_exact() {
    let mut a: [u16; 3] = [1, 2, 3];
    a.adds_assign(1000);
    assert_eq!(a, [1001, 1002, 1003]);
}

#[test]
fn subs_assign_on_integers_is_exact() {
    let mut a: [u16; 3] = [1001, 1002, 1003];
    a.subs_assign(1000);
    assert_eq!(a, [1, 2, 3]);
}

#[test]
fn adds_into_overwrites_every_position_and_keeps_the_receiver() {
    let a: [i64; 3] = [1, 2, 3];
    let mut into: [i64; 3] = [99, -99, 7];
    a.adds_into(5, &mut into);
    assert_eq!(into, [6, 7, 8]);
    assert_eq!(a, [1, 2, 3]);
}

#[test]
fn subs_into_overwrites_every_position_and_keeps_the_receiver() {
    let a: [i64; 3] = [1, 2, 3];
    let mut into: [i64; 3] = [99, -99, 7];
    a.subs_into(5, &mut into);
    assert_eq!(into, [-4, -3, -2]);
    assert_eq!(a, [1, 2, 3]);
}

#[test]
fn adds_reaches_the_limits_of_the_element_type() {
    let a: [u8; 3] = [0, 1, 5];
    assert_eq!(a.adds(250), [250, 251, 255]);
    let b: [i8; 2] = [-1, 0];
    assert_eq!(b.subs(127), [-128, -127]);
}

#[test]
fn scalar_operations_on_the_empty_array() {
    let mut a: [i32; 0] = [];
    assert_eq!(a.adds(5), []);
    assert_eq!(a.subs(5), []);
    a.adds_assign(i32::MAX);
    let mut into: [i32; 0] = [];
    a.subs_into(i32::MAX, &mut into);
    assert_eq!(into, a);
}

#[test]
fn adds_gives_the_same_result_each_time() {
    let a: [i32; 3] = [7, 8, 9];
    assert_eq!(a.adds(3), a.adds(3));
    let x = [1.2, 1.3, 1.4];
    assert_eq!(x.adds(2.1), x.adds(2.1));
    assert_eq!(x.subs(2.1), x.subs(2.1));
}

#[test]
fn adds_assign_accumulates_when_repeated() {
    let mut a: [i32; 2] = [1, 2];
    a.adds_assign(10);
    assert_eq!(a, [11, 12]);
    a.adds_assign(10);
    assert_eq!(a, [21, 22]);
    a.subs_assign(10);
    a.subs_assign(10);
    assert_eq!(a, [1, 2]);
}

#[test]
fn subs_undoes_adds_on_integers() {
    let a: [i64; 3] = [-5, 0, 1_000_000];
    assert_eq!(a.adds(17).subs(17), a);
    let u: [u8; 2] = [0, 200];
    assert_eq!(u.adds(55).subs(55), u);
}

#[test]
fn subs_undoes_adds_on_floats_within_rounding() {
    let a = [1.2, 1.3, 1.4];
    let back = a.adds(2.1).subs(2.1);
    for i in 0..a.len() {
        assert!(close(back[i], a[i]));
    }
}

#[test]
fn scalar_float_special_values_propagate() {
    let a = [1.0, f64::NAN, f64::NEG_INFINITY];
    let sum = a.adds(f64::INFINITY);
    assert_eq!(sum[0], f64::INFINITY);
    assert!(sum[1].is_nan());
    assert!(sum[2].is_nan());
}

#[test]
fn the_three_scalar_conventions_agree() {
    let a: [i32; 3] = [3, 1, 4];
    let returned = a.subs(2);
    let mut updated = a;
    updated.subs_assign(2);
    let mut filled: [i32; 3] = [0, 0, 0];
    a.subs_into(2, &mut filled);
    assert_eq!(returned, [1, -1, 2]);
    assert_eq!(updated, returned);
    assert_eq!(filled, returned);
}
