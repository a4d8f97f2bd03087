use rustlib::DataWithCallback;
use rustlib::Recorder;
use rustlib::SilentCallback;
use rustlib::add_numbers;
use rustlib::fibonacci;
use rustlib::free_rust_string;
use rustlib::process_data_with_callback;
use rustlib::process_string;
use rustlib::sum_with_callback;

#[test]
fn add_small_numbers() {
    assert_eq!(add_numbers(2, 3), 5);
    assert_eq!(add_numbers(-7, 7), 0);
    assert_eq!(add_numbers(-5, -6), -11);
    assert_eq!(add_numbers(0, 0), 0);
}

#[test]
fn add_wraps_on_overflow() {
    assert_eq!(add_numbers(i32::MAX, 1), i32::MIN);
    assert_eq!(add_numbers(i32::MIN, -1), i32::MAX);
    assert_eq!(add_numbers(i32::MAX, i32::MAX), -2);
}

#[test]
fn add_is_repeatable() {
    assert_eq!(add_numbers(123, 456), add_numbers(123, 456));
    assert_eq!(add_numbers(i32::MAX, 2), add_numbers(i32::MAX, 2));
}

#[test]
fn fibonacci_base_cases() {
    assert_eq!(fibonacci(0), 0);
    assert_eq!(fibonacci(1), 1);
    assert_eq!(fibonacci(2), 1);
    assert_eq!(fibonacci(3), 2);
    assert_eq!(fibonacci(10), 55);
}

#[test]
fn fibonacci_largest_exact_value() {
    assert_eq!(fibonacci(93), 12200160415121876738);
}

#[test]
fn fibonacci_wraps_past_93() {
    // The 94th value exceeds 64 bits and comes back reduced modulo 2^64.
    assert_eq!(fibonacci(94), 1293530146158671551);
}

#[test]
fn fibonacci_recurrence_holds_up_to_93() {
    for n in 2..=93u32 {
        assert_eq!(fibonacci(n), fibonacci(n - 1) + fibonacci(n - 2));
    }
}

#[test]
fn fibonacci_is_repeatable() {
    assert_eq!(fibonacci(40), fibonacci(40));
    assert_eq!(fibonacci(93), fibonacci(93));
}

#[test]
fn process_string_uppercases_with_prefix() {
    let out = process_string(b"hello");
    assert_eq!(out.read(), "Processed: HELLO");
    free_rust_string(Some(out));
}

#[test]
fn process_string_keeps_prefix_case() {
    let out = process_string(b"HeLLo wOrld");
    assert_eq!(out.read(), "Processed: HELLO WORLD");
    free_rust_string(Some(out));
}

#[test]
fn process_string_empty_input() {
    let out = process_string(b"");
    assert_eq!(out.read(), "Processed: ");
    free_rust_string(Some(out));
}

#[test]
fn process_string_invalid_utf8_falls_back() {
    let out = process_string(&[0xff, 0xfe, 0x41]);
    assert_eq!(out.read(), "Processed: INVALID");
    free_rust_string(Some(out));
}

#[test]
fn process_string_is_repeatable() {
    let first = process_string(b"same input");
    let second = process_string(b"same input");
    assert_eq!(first.read(), second.read());
    free_rust_string(Some(first));
    free_rust_string(Some(second));
}

#[test]
fn free_null_is_no_op() {
    free_rust_string(None);
}

#[test]
fn process_callback_doubles_in_order() {
    let mut d = DataWithCallback { data: Some(vec![1, 2, 3]), length: 3, callback: Recorder::new() };
    let ret = process_data_with_callback(&mut d);
    assert_eq!(ret, 3);
    assert_eq!(d.callback.received, vec![2, 4, 6]);
}

#[test]
fn process_callback_rejects_missing_array() {
    let mut d = DataWithCallback { data: None, length: 3, callback: Recorder::new() };
    let ret = process_data_with_callback(&mut d);
    assert_eq!(ret, -1);
    assert!(d.callback.received.is_empty());
}

#[test]
fn process_callback_rejects_non_positive_count() {
    let mut zero = DataWithCallback { data: Some(vec![1, 2, 3]), length: 0, callback: Recorder::new() };
    assert_eq!(process_data_with_callback(&mut zero), -1);
    assert!(zero.callback.received.is_empty());

    let mut negative =
        DataWithCallback { data: Some(vec![1, 2, 3]), length: -2, callback: Recorder::new() };
    assert_eq!(process_data_with_callback(&mut negative), -1);
    assert!(negative.callback.received.is_empty());
}

#[test]
fn process_callback_count_selects_prefix() {
    let mut d = DataWithCallback { data: Some(vec![4, 5, 6]), length: 2, callback: Recorder::new() };
    let ret = process_data_with_callback(&mut d);
    assert_eq!(ret, 2);
    assert_eq!(d.callback.received, vec![8, 10]);
}

#[test]
fn process_callback_doubling_wraps() {
    let mut d = DataWithCallback { data: Some(vec![i32::MAX]), length: 1, callback: Recorder::new() };
    let ret = process_data_with_callback(&mut d);
    assert_eq!(ret, 1);
    assert_eq!(d.callback.received, vec![-2]);
}

#[test]
fn process_callback_tolerates_no_op_callback() {
    let mut d =
        DataWithCallback { data: Some(vec![1, 2, 3]), length: 3, callback: SilentCallback::new() };
    assert_eq!(process_data_with_callback(&mut d), 3);
}

#[test]
fn sum_callback_reports_running_sums() {
    let mut d = DataWithCallback { data: Some(vec![1, 2, 3]), length: 3, callback: Recorder::new() };
    let ret = sum_with_callback(&mut d);
    assert_eq!(ret, 6);
    assert_eq!(d.callback.received, vec![1, 3, 6]);
}

#[test]
fn sum_callback_rejects_missing_array() {
    let mut d = DataWithCallback { data: None, length: 3, callback: Recorder::new() };
    let ret = sum_with_callback(&mut d);
    assert_eq!(ret, 0);
    assert!(d.callback.received.is_empty());
}

#[test]
fn sum_callback_rejects_non_positive_count() {
    let mut zero = DataWithCallback { data: Some(vec![9]), length: 0, callback: Recorder::new() };
    assert_eq!(sum_with_callback(&mut zero), 0);
    assert!(zero.callback.received.is_empty());

    let mut negative = DataWithCallback { data: Some(vec![9]), length: -1, callback: Recorder::new() };
    assert_eq!(sum_with_callback(&mut negative), 0);
    assert!(negative.callback.received.is_empty());
}

#[test]
fn sum_callback_handles_negative_values() {
    let mut d = DataWithCallback { data: Some(vec![5, -3, -9]), length: 3, callback: Recorder::new() };
    let ret = sum_with_callback(&mut d);
    assert_eq!(ret, -7);
    assert_eq!(d.callback.received, vec![5, 2, -7]);
}

#[test]
fn sum_callback_sum_wraps() {
    let mut d =
        DataWithCallback { data: Some(vec![i32::MAX, 1]), length: 2, callback: Recorder::new() };
    let ret = sum_with_callback(&mut d);
    assert_eq!(ret, i32::MIN);
    assert_eq!(d.callback.received, vec![i32::MAX, i32::MIN]);
}

#[test]
fn sum_callback_tolerates_no_op_callback() {
    let mut d =
        DataWithCallback { data: Some(vec![2, 4]), length: 2, callback: SilentCallback::new() };
    assert_eq!(sum_with_callback(&mut d), 6);
}
