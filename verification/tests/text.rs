use chalk_wf::text::{digit_char, push_decimal, push_tagged};

#[test]
fn digits() {
    let all: String = (0..10).map(digit_char).collect();
    assert_eq!(all, "0123456789");
}

#[test]
fn decimal_numerals() {
    for n in [0usize, 7, 10, 11, 909, 1000, 65535, usize::MAX] {
        let mut s = String::from("n=");
        push_decimal(&mut s, n);
        assert_eq!(s, format!("n={}", n));
    }
}

#[test]
fn tagged_numerals() {
    let mut s = String::from("<");
    push_tagged(&mut s, "Id", 42);
    push_tagged(&mut s, "", 0);
    assert_eq!(s, "<Id(42)(0)");
}
