use paced_pipeline::clock::{whole_micros, NANOS_PER_MICRO};
use paced_pipeline::report::{append_decimal, Progress};

fn decimal(value: u128) -> String {
    let mut text = String::new();
    append_decimal(&mut text, value);
    text
}

#[test]
fn a_microsecond_is_a_thousand_nanoseconds() {
    assert_eq!(NANOS_PER_MICRO, 1000);
}

#[test]
fn progress_line_has_the_documented_shape() {
    let progress = Progress { sequence: 7, wait_nanos: 12_345, write_nanos: 345_678 };
    assert_eq!(progress.line(), "Wrote 7! (waited 12 us, wrote 345 us)");
}

#[test]
fn progress_line_of_the_first_record() {
    let progress = Progress { sequence: 0, wait_nanos: 0, write_nanos: 0 };
    assert_eq!(progress.line(), "Wrote 0! (waited 0 us, wrote 0 us)");
}

#[test]
fn progress_line_of_the_largest_values() {
    let progress = Progress { sequence: u64::MAX, wait_nanos: u128::MAX, write_nanos: 999 };
    assert_eq!(
        progress.line(),
        "Wrote 18446744073709551615! (waited 340282366920938463463374607431768211 us, wrote 0 us)"
    );
}

#[test]
fn microseconds_are_cut_off_not_rounded() {
    let progress = Progress { sequence: 1, wait_nanos: 1_999, write_nanos: 2_000 };
    assert_eq!(progress.wait_micros(), 1);
    assert_eq!(progress.write_micros(), 2);
    let progress = Progress { sequence: 1, wait_nanos: 999, write_nanos: 1_000_000_000 };
    assert_eq!(progress.wait_micros(), 0);
    assert_eq!(progress.write_micros(), 1_000_000);
}

#[test]
fn decimal_numerals_match_the_standard_rendering() {
    for value in [0u128, 1, 9, 10, 11, 99, 100, 101, 2_500, 10_240, 1_000_000, u64::MAX as u128] {
        assert_eq!(decimal(value), format!("{}", value));
    }
    assert_eq!(decimal(u128::MAX), "340282366920938463463374607431768211455");
}

#[test]
fn decimal_is_appended_to_what_is_there() {
    let mut text = String::from("n=");
    append_decimal(&mut text, 42);
    append_decimal(&mut text, 0);
    assert_eq!(text, "n=420");
}

#[test]
fn reported_microseconds_add_up_to_the_span_or_one_less() {
    let cases: [(u128, u128); 4] = [(1_500, 1_500), (999, 999), (1_000, 2_000), (0, 999)];
    for (wait_nanos, write_nanos) in cases {
        let progress = Progress { sequence: 0, wait_nanos, write_nanos };
        let total = (wait_nanos + write_nanos) / NANOS_PER_MICRO;
        let shown = progress.wait_micros() + progress.write_micros();
        assert!(shown <= total && total <= shown + 1);
    }
}

#[test]
fn whole_microseconds_drop_the_remainder() {
    assert_eq!(whole_micros(0), 0);
    assert_eq!(whole_micros(999), 0);
    assert_eq!(whole_micros(1_000), 1);
    assert_eq!(whole_micros(2_500_000), 2_500);
    assert_eq!(whole_micros(u128::MAX), 340_282_366_920_938_463_463_374_607_431_768_211);
}
