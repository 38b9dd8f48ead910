use led_panel::decimal::append_digits;

#[test]
fn digits_are_appended_after_what_is_there() {
    let mut s = String::from("n=");
    append_digits(&mut s, 0);
    assert_eq!(s, "n=0");
    append_digits(&mut s, 255);
    assert_eq!(s, "n=0255");
    append_digits(&mut s, u32::MAX);
    assert_eq!(s, "n=02554294967295");
}

#[test]
fn every_byte_is_written_as_the_platform_writes_it() {
    for n in 0..=255u32 {
        let mut s = String::new();
        append_digits(&mut s, n);
        assert_eq!(s, format!("{}", n));
    }
}

#[test]
fn large_numbers_are_written_in_full() {
    for n in [256u32, 999, 1_000, 65_535, 1_000_000, 4_294_967_295] {
        let mut s = String::new();
        append_digits(&mut s, n);
        assert_eq!(s, format!("{}", n));
    }
}
