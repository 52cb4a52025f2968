use ownership::decimal::to_decimal;

#[test]
fn decimal_of_zero_is_one_digit() {
    assert_eq!(to_decimal(0), "0");
}

#[test]
fn decimal_of_each_single_digit() {
    let digits = ["0", "1", "2", "3", "4", "5", "6", "7", "8", "9"];
    let mut n: u64 = 0;
    for digit in digits {
        assert_eq!(to_decimal(n), digit);
        n += 1;
    }
}

#[test]
fn decimal_around_a_new_digit() {
    assert_eq!(to_decimal(9), "9");
    assert_eq!(to_decimal(10), "10");
    assert_eq!(to_decimal(11), "11");
    assert_eq!(to_decimal(12), "12");
    assert_eq!(to_decimal(99), "99");
    assert_eq!(to_decimal(100), "100");
    assert_eq!(to_decimal(101), "101");
    assert_eq!(to_decimal(999_999), "999999");
    assert_eq!(to_decimal(1_000_000), "1000000");
}

#[test]
fn decimal_keeps_inner_and_trailing_zeros() {
    assert_eq!(to_decimal(1_002_030), "1002030");
    assert_eq!(to_decimal(70_000), "70000");
}

#[test]
fn decimal_of_the_largest_numbers() {
    assert_eq!(to_decimal(4_294_967_295), "4294967295");
    assert_eq!(to_decimal(u64::MAX), "18446744073709551615");
}

#[test]
fn decimal_agrees_with_the_standard_formatting() {
    let mut n: u64 = 0;
    while n < 5000 {
        assert_eq!(to_decimal(n), format!("{}", n));
        n += 1;
    }
    let mut n: u64 = 1;
    while n < u64::MAX / 7 {
        assert_eq!(to_decimal(n), format!("{}", n));
        assert_eq!(to_decimal(n - 1), format!("{}", n - 1));
        n *= 7;
    }
}

#[test]
fn decimal_reads_back_as_the_number() {
    let mut n: u64 = 3;
    while n < u64::MAX / 11 {
        assert_eq!(to_decimal(n).parse::<u64>(), Ok(n));
        n = n * 11 + 5;
    }
}
