use exercises::fib::fibonacci;
use exercises::plus_one;

#[test]
fn fibonacci_position_zero_is_one() {
    assert_eq!(fibonacci(0), 1);
}

#[test]
fn fibonacci_position_one_is_zero() {
    assert_eq!(fibonacci(1), 0);
}

#[test]
fn fibonacci_position_two_is_one() {
    assert_eq!(fibonacci(2), 1);
}

#[test]
fn fibonacci_position_five_is_five() {
    assert_eq!(fibonacci(5), 5);
}

#[test]
fn fibonacci_matches_standard_sequence_from_two_up() {
    let expected: [u32; 11] = [1, 2, 3, 5, 8, 13, 21, 34, 55, 89, 144];
    for (offset, want) in expected.iter().enumerate() {
        assert_eq!(fibonacci(2 + offset as u32), *want);
    }
}

#[test]
fn fibonacci_largest_position_fitting_a_u32() {
    assert_eq!(fibonacci(47), 2_971_215_073);
}

#[test]
fn plus_one_adds_one() {
    assert_eq!(plus_one(5), 6);
    assert_eq!(plus_one(-1), 0);
    assert_eq!(plus_one(i32::MAX - 1), i32::MAX);
}
