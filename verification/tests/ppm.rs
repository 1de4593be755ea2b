use my_ray_tracer::basics::ppm::{push_decimal, push_header, push_line};

fn decimal(n: usize) -> String {
    let mut out = Vec::new();
    push_decimal(&mut out, n);
    String::from_utf8(out).unwrap()
}

#[test]
fn decimal_digits_of_small_and_large_numbers() {
    assert_eq!(decimal(0), "0");
    assert_eq!(decimal(7), "7");
    assert_eq!(decimal(10), "10");
    assert_eq!(decimal(255), "255");
    assert_eq!(decimal(1000), "1000");
    assert_eq!(decimal(9_007_199_254_740_993), "9007199254740993");
    assert_eq!(decimal(usize::MAX), usize::MAX.to_string());
    for n in 0..2000usize {
        assert_eq!(decimal(n), n.to_string());
    }
}

#[test]
fn decimal_digits_are_appended_to_what_is_there() {
    let mut out = vec![b'x', b'='];
    push_decimal(&mut out, 42);
    assert_eq!(out, b"x=42");
}

#[test]
fn header_has_three_lines() {
    let mut out = Vec::new();
    push_header(&mut out, 300, 200);
    assert_eq!(out, b"P3\n300 200\n255\n");
    let mut out = vec![b'#'];
    push_header(&mut out, 1, 0);
    assert_eq!(out, b"#P3\n1 0\n255\n");
}

#[test]
fn line_has_three_levels() {
    let mut out = Vec::new();
    push_line(&mut out, (0, 128, 255));
    push_line(&mut out, (9, 10, 99));
    assert_eq!(out, b"0 128 255\n9 10 99\n");
}
