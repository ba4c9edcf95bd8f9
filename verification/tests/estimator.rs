use freqmeter::{correct_counts, correct_frequency_counts, get_frequency, measurement_line, Fix,
    FreqUnit};
use freqmeter::estimator::compose_second_line;
use freqmeter::FormatError;

#[test]
fn correction_subtracts_four_percent() {
    assert_eq!(correct_frequency_counts(100), 96);
    assert_eq!(correct_frequency_counts(0), 0);
    assert_eq!(correct_frequency_counts(50), 48);
    // 4294967295 * 4 / 100 = 171798691 (floor)
    assert_eq!(correct_frequency_counts(u32::MAX), u32::MAX - 171_798_691);
}

#[test]
fn correction_percentage_is_configurable() {
    assert_eq!(correct_counts(200, 10), 180);
    assert_eq!(correct_counts(200, 0), 200);
    assert_eq!(correct_counts(200, 100), 0);
}

#[test]
fn ratio_above_one_stays_megahertz() {
    // 1_500_000 ticks over 200_000 microseconds: raw ratio 7.5, no scaling.
    let (v, unit) = get_frequency(Fix::from_int(1_500_000), Fix::from_int(200_000));
    assert_eq!(unit, FreqUnit::MegaHertz);
    // 7.5 in fixed point: 7.5 * 256 = 1920.
    assert_eq!(v.bits(), 1920);
}

#[test]
fn two_scale_steps_reach_hertz() {
    // 150 ticks over 200_000 microseconds: scaled twice before it reaches
    // the denominator, so the unit is Hz and the value 150_000_000/200_000.
    let (v, unit) = get_frequency(Fix::from_int(150), Fix::from_int(200_000));
    assert_eq!(unit, FreqUnit::Hertz);
    assert_eq!(v.bits(), 750 * 256);
}

#[test]
fn one_scale_step_reaches_kilohertz() {
    // 1_000 ticks over 200_000 microseconds: one scaling step suffices.
    let (v, unit) = get_frequency(Fix::from_int(1_000), Fix::from_int(200_000));
    assert_eq!(unit, FreqUnit::KiloHertz);
    assert_eq!(v.bits(), 5 * 256);
}

#[test]
fn zero_ticks_scale_twice_to_hertz() {
    let (v, unit) = get_frequency(Fix::from_int(0), Fix::from_int(200_000));
    assert_eq!(unit, FreqUnit::Hertz);
    assert_eq!(v.bits(), 0);
}

#[test]
fn division_truncates() {
    // 10 ticks over 3 microseconds: 3.333… MHz; the division floors at the
    // fixed-point resolution: 2560 * 256 / 768 = 853.33… kept as 853.
    let (v, unit) = get_frequency(Fix::from_int(10), Fix::from_int(3));
    assert_eq!(unit, FreqUnit::MegaHertz);
    assert_eq!(v.bits(), 853);
}

#[test]
fn unit_labels() {
    assert_eq!(FreqUnit::MegaHertz.label_bytes(), b"MHz".to_vec());
    assert_eq!(FreqUnit::KiloHertz.label_bytes(), b"kHz".to_vec());
    assert_eq!(FreqUnit::Hertz.label_bytes(), b"Hz".to_vec());
}

#[test]
fn composed_line_is_padded_to_row_width() {
    let mut text: heapless::String<7> = heapless::String::new();
    text.push_str("7.500").unwrap();
    let line = compose_second_line(&text, FreqUnit::MegaHertz);
    assert_eq!(line.as_str(), " 7.500 MHz      ");
    assert_eq!(line.as_str().len(), 16);
}

#[test]
fn measurement_line_full_pipeline() {
    // 1_500_000 corrected ticks over 200_000 microseconds: 7.5 MHz.
    let line = measurement_line(1_500_000, 200_000).unwrap();
    assert_eq!(line.as_str(), " 7.500 MHz      ");
    // 150 ticks over the same window: 750 Hz.
    let line = measurement_line(150, 200_000).unwrap();
    assert_eq!(line.as_str(), " 750.000 Hz     ");
}

#[test]
fn measurement_line_reports_capacity_error() {
    // 400_000_000 ticks over 200_000 microseconds: 2000 MHz, whose formatted
    // value does not fit the 7-byte buffer.
    assert_eq!(measurement_line(400_000_000, 200_000), Err(FormatError::Capacity));
}
