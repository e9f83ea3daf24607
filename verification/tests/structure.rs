use nhs_number::NHSNumber;

#[test]
fn test_new() {
    let a: NHSNumber = NHSNumber::new([0, 1, 2, 3, 4, 5, 6, 7, 8, 9]);
    let actual = a.to_string();
    let expect = "012 345 6789";
    assert_eq!(actual, expect);
}

#[test]
fn test_display() {
    let a: NHSNumber = NHSNumber::new([0, 1, 2, 3, 4, 5, 6, 7, 8, 9]);
    let actual = a.to_string();
    let expect = "012 345 6789";
    assert_eq!(actual, expect);
}

#[test]
fn test_into_string() {
    let a: NHSNumber = NHSNumber::new([0, 1, 2, 3, 4, 5, 6, 7, 8, 9]);
    let actual: String = a.to_string();
    let expect = "012 345 6789";
    assert_eq!(actual, expect);
}

#[test]
fn test_partial_eq() {
    {
        let a: NHSNumber = NHSNumber::new([0, 1, 2, 3, 4, 5, 6, 7, 8, 9]);
        let b: NHSNumber = NHSNumber::new([0, 1, 2, 3, 4, 5, 6, 7, 8, 9]);
        assert_eq!(a, b);
    }
    {
        let a: NHSNumber = NHSNumber::new([0, 1, 2, 3, 4, 5, 6, 7, 8, 9]);
        let b: NHSNumber = NHSNumber::new([9, 8, 7, 6, 5, 4, 3, 2, 1, 0]);
        assert_ne!(a, b);
    }
}

#[test]
fn test_check_digit() {
    let a = NHSNumber::new([0, 1, 2, 3, 4, 5, 6, 7, 8, 9]);
    let actual: i8 = a.check_digit();
    let expect: i8 = 9;
    assert_eq!(actual, expect);
}

#[test]
fn test_calculate_check_digit() {
    let a: NHSNumber = NHSNumber::new([9, 9, 9, 1, 2, 3, 4, 5, 6, 0]);
    let actual: i8 = a.calculate_check_digit();
    let expect: i8 = 0;
    assert_eq!(actual, expect);
}

#[test]
fn test_validate_check_digit() {
    {
        let a: NHSNumber = NHSNumber::new([9, 9, 9, 1, 2, 3, 4, 5, 6, 0]);
        assert_eq!(a.validate_check_digit(), true);
    }
    {
        let a: NHSNumber = NHSNumber::new([9, 9, 9, 1, 2, 3, 4, 5, 6, 1]);
        assert_eq!(a.validate_check_digit(), false);
    }
}

#[test]
fn test_testable_random_sample() {
    let a: NHSNumber = NHSNumber::testable_random_sample();
    assert!(a >= nhs_number::testable_min());
    assert!(a <= nhs_number::testable_max());
}
