use atlas::text::{chars_of, decimal, str_equal, str_less};
use atlas::utils::log_prefix;

#[test]
fn log_prefix_puts_the_project_in_front() {
    assert_eq!(log_prefix("books"), "project::books");
    assert_eq!(log_prefix(""), "project::");
}

#[test]
fn chars_of_lists_the_characters() {
    assert_eq!(chars_of("aé€"), vec!['a', 'é', '€']);
    assert_eq!(chars_of(""), Vec::<char>::new());
}

#[test]
fn str_less_orders_as_strings_are_ordered() {
    let samples = ["", "a", "A", "ab", "abc", "b", "é", "e", "zeta", "alpha", "001", "01", "€", "z€"];
    for left in samples {
        for right in samples {
            assert_eq!(str_less(left, right), left < right, "{:?} < {:?}", left, right);
            assert_eq!(str_equal(left, right), left == right, "{:?} == {:?}", left, right);
        }
    }
}

#[test]
fn decimal_renders_without_leading_zeros() {
    assert_eq!(decimal(0), "0");
    assert_eq!(decimal(7), "7");
    assert_eq!(decimal(10), "10");
    assert_eq!(decimal(8080), "8080");
    assert_eq!(decimal(65535), "65535");
    for number in [1u16, 9, 11, 99, 100, 101, 999, 1000, 12345, 60000] {
        assert_eq!(decimal(number), number.to_string());
    }
}
