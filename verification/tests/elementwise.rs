use arraymath::elementwise::apply;
use arraymath::elementwise::map_assign;
use arraymath::elementwise::map_into;
use arraymath::elementwise::map_new;
use arraymath::elementwise::zip_assign;
use arraymath::elementwise::zip_into;
use arraymath::elementwise::zip_new;
use arraymath::elementwise::Operator;
use arraymath::MathError;

#[test]
fn apply_evaluates_the_chosen_operator() {
    assert_eq!(apply(Operator::Plus, 2i32, 3i32), 5);
    assert_eq!(apply(Operator::Minus, 2i32, 3i32), -1);
    assert_eq!(apply(Operator::Plus, 255u8, 0u8), 255);
    assert_eq!(apply(Operator::Minus, 0.5f64, 0.25f64), 0.25);
}

#[test]
fn zip_new_combines_position_by_position() {
    let lhs: [i32; 3] = [1, 2, 3];
    let rhs: [i32; 3] = [30, 20, 10];
    assert_eq!(zip_new(Operator::Plus, &lhs, &rhs), Ok([31, 22, 13]));
    assert_eq!(zip_new(Operator::Minus, &lhs, &rhs), Ok([-29, -18, -7]));
}

#[test]
fn zip_assign_updates_the_target() {
    let mut target: [i32; 3] = [1, 2, 3];
    let rhs: [i32; 3] = [30, 20, 10];
    assert_eq!(zip_assign(Operator::Minus, &mut target, &rhs), Ok(()));
    assert_eq!(target, [-29, -18, -7]);
    assert_eq!(zip_assign(Operator::Plus, &mut target, &rhs), Ok(()));
    assert_eq!(target, [1, 2, 3]);
}

#[test]
fn zip_into_fills_the_buffer() {
    let lhs: [i32; 3] = [1, 2, 3];
    let rhs: [i32; 3] = [30, 20, 10];
    let mut into: [i32; 3] = [99, 99, 99];
    assert_eq!(zip_into(Operator::Plus, &lhs, &rhs, &mut into), Ok(()));
    assert_eq!(into, [31, 22, 13]);
    assert_eq!(lhs, [1, 2, 3]);
}

#[test]
fn zip_functions_refuse_a_short_operand() {
    let lhs: [i32; 3] = [1, 2, 3];
    let rhs: [i32; 1] = [30];
    let refused = MathError::LengthMismatch { expected: 3, found: 1 };
    assert_eq!(zip_new(Operator::Plus, &lhs, &rhs), Err(refused));
    let mut target = lhs;
    assert_eq!(zip_assign(Operator::Plus, &mut target, &rhs), Err(refused));
    assert_eq!(target, lhs);
    let mut into: [i32; 3] = [99, 99, 99];
    assert_eq!(zip_into(Operator::Minus, &lhs, &rhs, &mut into), Err(refused));
    assert_eq!(into, [99, 99, 99]);
}

#[test]
fn map_new_combines_every_element_with_the_scalar() {
    let lhs: [i32; 3] = [1, 2, 3];
    assert_eq!(map_new(Operator::Plus, &lhs, 4), [5, 6, 7]);
    assert_eq!(map_new(Operator::Minus, &lhs, 4), [-3, -2, -1]);
}

#[test]
fn map_assign_updates_the_target() {
    let mut target: [i32; 3] = [1, 2, 3];
    map_assign(Operator::Plus, &mut target, 4);
    assert_eq!(target, [5, 6, 7]);
    map_assign(Operator::Minus, &mut target, 6);
    assert_eq!(target, [-1, 0, 1]);
}

#[test]
fn map_into_fills_the_buffer() {
    let lhs: [i32; 3] = [1, 2, 3];
    let mut into: [i32; 3] = [99, 99, 99];
    map_into(Operator::Minus, &lhs, 1, &mut into);
    assert_eq!(into, [0, 1, 2]);
    assert_eq!(lhs, [1, 2, 3]);
}

#[test]
fn the_error_reports_both_lengths() {
    let lhs: [u8; 4] = [1, 2, 3, 4];
    let rhs: [u8; 2] = [1, 2];
    match zip_new(Operator::Plus, &lhs, &rhs) {
        Err(MathError::LengthMismatch { expected, found }) => {
            assert_eq!(expected, 4);
            assert_eq!(found, 2);
        }
        Ok(_) => panic!("a short operand was accepted"),
    }
}
