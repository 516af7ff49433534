use co_no2_calibrator::decimal::push_decimal;

#[test]
fn decimal_notation() {
    for (n, text) in [(0u16, "0"), (9, "9"), (10, "10"), (247, "247"), (1000, "1000"), (65535, "65535")] {
        let mut s = String::new();
        push_decimal(&mut s, n);
        assert_eq!(s, text);
        assert_eq!(s.parse::<u16>().unwrap(), n);
    }
}

#[test]
fn decimal_appends() {
    let mut s = "v".to_string();
    push_decimal(&mut s, 42);
    assert_eq!(s, "v42");
}
