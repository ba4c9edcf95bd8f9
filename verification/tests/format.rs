use freqmeter::{digit_to_char, format_fixed, format_freq, Fix, FormatError};

#[test]
fn digit_chars() {
    assert_eq!(digit_to_char(0), Some('0'));
    assert_eq!(digit_to_char(4), Some('4'));
    assert_eq!(digit_to_char(9), Some('9'));
    assert_eq!(digit_to_char(10), None);
    assert_eq!(digit_to_char(usize::MAX), None);
}

#[test]
fn format_zero() {
    let s = format_freq(Fix::from_int(0)).unwrap();
    assert_eq!(s.as_str(), "0.000");
}

#[test]
fn format_twelve_and_a_half() {
    // 12.5 is exactly representable: 12.5 * 256 = 3200.
    let s = format_freq(Fix::from_bits(3200)).unwrap();
    assert_eq!(s.as_str(), "12.500");
}

#[test]
fn format_small_fraction() {
    // The closest representable value to 0.04 is 10/256 = 0.0390625; its
    // digit extraction shows the ones digit (never suppressed), the point,
    // and three fractional digits.
    let s = format_freq(Fix::from_bits(10)).unwrap();
    assert_eq!(s.as_str(), "0.039");
}

#[test]
fn format_no_leading_zeros_beyond_ones_digit() {
    let s = format_freq(Fix::from_int(7)).unwrap();
    assert_eq!(s.as_str(), "7.000");
    let s = format_freq(Fix::from_int(42)).unwrap();
    assert_eq!(s.as_str(), "42.000");
    let s = format_freq(Fix::from_int(750)).unwrap();
    assert_eq!(s.as_str(), "750.000");
}

#[test]
fn format_fills_capacity_exactly() {
    // 999 + 255/256 = 999.996093…: seven bytes, the buffer's full capacity.
    let s = format_freq(Fix::from_bits(999 * 256 + 255)).unwrap();
    assert_eq!(s.as_str(), "999.996");
}

#[test]
fn format_over_capacity_is_an_error() {
    // Four shown integer digits need eight bytes, one more than fits.
    assert_eq!(format_freq(Fix::from_int(1000)), Err(FormatError::Capacity));
    assert_eq!(format_freq(Fix::from_int(9999)), Err(FormatError::Capacity));
}

#[test]
fn format_fixed_general_widths() {
    // format(value=0, int_digits=2, frac_digits=3) -> "0.000"
    assert_eq!(format_fixed(Fix::from_int(0), 2, 3), b"0.000".to_vec());
    // format(value=12.5, 2, 3) -> "12.500"
    assert_eq!(format_fixed(Fix::from_bits(3200), 2, 3), b"12.500".to_vec());
    // One integer digit, no fraction shown beyond the requested digits.
    assert_eq!(format_fixed(Fix::from_bits(3200), 1, 1), b"2.5".to_vec());
    // The integer part is reduced to the requested digit window.
    assert_eq!(format_fixed(Fix::from_int(12345), 4, 0), b"2345.".to_vec());
}
