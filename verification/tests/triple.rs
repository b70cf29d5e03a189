use threeline::triple::Triple;

#[test]
fn test_three_line_add() {
    let first = Triple(2, 2, 2);
    let second = Triple(4, 6, 8);
    let expected_result = Triple(6, 8, 10);

    let result = first.add(second);

    assert_eq!(result, expected_result)
}

#[test]
fn test_three_line_iadd() {
    let first = Triple(2, 2, 2);
    let mut result = Triple(4, 6, 8);
    let expected_result = Triple(6, 8, 10);

    result.add_in_place(first);

    assert_eq!(result, expected_result)
}

#[test]
fn test_three_line_sub() {
    let first = Triple(4, 6, 8);
    let second = Triple(2, 2, 2);
    let expected_result = Triple(2, 4, 6);

    let result = first.sub(second);

    assert_eq!(result, expected_result)
}

#[test]
fn test_three_line_sub_assign() {
    let first = Triple(2, 2, 2);
    let mut result = Triple(4, 6, 8);
    let expected_result = Triple(2, 4, 6);

    result.sub_in_place(first);

    assert_eq!(result, expected_result)
}

#[test]
fn test_three_line_mul() {
    let first = Triple(2, 2, 2);
    let second = Triple(2, 4, 8);
    let expected_result = Triple(4, 8, 16);
    let result: Triple = first.mul(second);

    assert_eq!(result, expected_result)
}

#[test]
fn test_three_line_mul_assign() {
    let first = Triple(2, 2, 2);
    let mut result = Triple(2, 4, 8);
    let expected_result = Triple(4, 8, 16);
    result.mul_in_place(first);

    assert_eq!(result, expected_result)
}

#[test]
fn test_three_line_mul_f32() {
    let first = Triple(2, 2, 2);
    let expected_result = Triple(4, 4, 4);
    let result: Triple = first.mul_scalar(2);

    assert_eq!(result, expected_result)
}

#[test]
fn test_three_line_mul_f32_assign() {
    let mut result = Triple(2, 4, 8);
    let expected_result = Triple(4, 8, 16);
    result.mul_scalar_in_place(2);

    assert_eq!(result, expected_result)
}

#[test]
fn test_three_line_sum() {
    let v = vec![Triple(2, 2, 2), Triple(2, 2, 2), Triple(2, 2, 2)];
    let expected_result = Triple(6, 6, 6);

    let result: Triple = Triple::sum(&v);

    assert_eq!(result, expected_result)
}

#[test]
fn test_three_line_abs() {
    let first = Triple(2, -2, 2);
    let expected_result = Triple(2, -2, 2);

    let result: Triple = first.abs_copy();

    assert_eq!(result, expected_result)
}
