use pdf2pngs::name::{output_filename, push_decimal, usize_to_string};

#[test]
fn decimal_of_zero() {
    assert_eq!(usize_to_string(0), "0");
}

#[test]
fn decimal_single_digit() {
    assert_eq!(usize_to_string(7), "7");
}

#[test]
fn decimal_two_digits() {
    assert_eq!(usize_to_string(10), "10");
}

#[test]
fn decimal_many_digits() {
    assert_eq!(usize_to_string(120), "120");
    assert_eq!(usize_to_string(98765), "98765");
}

#[test]
fn decimal_largest() {
    assert_eq!(usize_to_string(usize::MAX), format!("{}", usize::MAX));
}

#[test]
fn push_decimal_appends() {
    let mut s = String::from("page ");
    push_decimal(&mut s, 42);
    assert_eq!(s, "page 42");
}

#[test]
fn filename_first_page() {
    assert_eq!(output_filename("out", 0), "out_0.png");
}

#[test]
fn filename_with_directory_prefix() {
    assert_eq!(output_filename("dir/pic", 123), "dir/pic_123.png");
}

#[test]
fn filename_empty_basename() {
    assert_eq!(output_filename("", 5), "_5.png");
}
