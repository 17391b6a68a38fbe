use mcp_counter::decimal::to_decimal;

#[test]
fn zero_is_a_single_digit() {
    assert_eq!(to_decimal(0), "0");
}

#[test]
fn single_digits_are_written_as_themselves() {
    let expected = ["0", "1", "2", "3", "4", "5", "6", "7", "8", "9"];
    for (value, text) in expected.iter().enumerate() {
        assert_eq!(to_decimal(value as i32), *text);
    }
}

#[test]
fn negative_numbers_start_with_a_minus_sign() {
    assert_eq!(to_decimal(-1), "-1");
    assert_eq!(to_decimal(-9), "-9");
    assert_eq!(to_decimal(-10), "-10");
    assert_eq!(to_decimal(-12345), "-12345");
}

#[test]
fn digits_come_most_significant_first() {
    assert_eq!(to_decimal(10), "10");
    assert_eq!(to_decimal(12), "12");
    assert_eq!(to_decimal(100), "100");
    assert_eq!(to_decimal(9876543), "9876543");
    assert_eq!(to_decimal(1000000007), "1000000007");
}

#[test]
fn the_bounds_of_the_counter_are_written_in_full() {
    assert_eq!(to_decimal(i32::MAX), "2147483647");
    assert_eq!(to_decimal(i32::MIN), "-2147483648");
}

#[test]
fn the_notation_is_the_one_of_the_standard_library() {
    let mut value: i32 = i32::MIN;
    loop {
        assert_eq!(to_decimal(value), value.to_string());
        match value.checked_add(7_654_321) {
            Some(next) => value = next,
            None => break,
        }
    }
    for value in -1100..=1100 {
        assert_eq!(to_decimal(value), value.to_string());
    }
}

#[test]
fn the_notation_reads_back_to_the_value() {
    for value in [0, 5, -5, 10, -10, 99, 100, 101, -2147483648, 2147483647, 1_000_000, -999_999] {
        let text = to_decimal(value);
        assert_eq!(text.parse::<i32>(), Ok(value));
    }
}

#[test]
fn different_values_have_different_notations() {
    let values = [0, 1, -1, 10, -10, 11, 101, 110, 1001, -1001];
    for a in values {
        for b in values {
            assert_eq!(to_decimal(a) == to_decimal(b), a == b);
        }
    }
}
