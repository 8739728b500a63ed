use proxy_exerciser::report::{push_thousandths, rate_line, rate_milli, report_lines};

#[test]
fn five_hundred_responses_in_five_seconds_are_a_hundred_per_second() {
    assert_eq!(rate_milli(500, 5000), Some(100_000));
    let rate = rate_milli(500, 5000).unwrap() as f64 / 1000.0;
    assert_eq!(rate, 100.0);
    assert_eq!(rate_line(500, 5000), "RPS: 100.000");
}

#[test]
fn the_rate_is_rounded_down_to_thousandths() {
    assert_eq!(rate_milli(15, 3000), Some(5_000));
    assert_eq!(rate_milli(1, 3000), Some(333));
    assert_eq!(rate_milli(2, 3000), Some(666));
    assert_eq!(rate_milli(0, 1), Some(0));
    assert_eq!(rate_milli(1, 1), Some(1_000_000));
    assert_eq!(rate_milli(u64::MAX, 1), Some(18_446_744_073_709_551_615_000_000));
    assert_eq!(rate_milli(7, u64::MAX), Some(0));
}

#[test]
fn there_is_no_rate_over_no_time() {
    assert_eq!(rate_milli(0, 0), None);
    assert_eq!(rate_milli(9, 0), None);
    assert_eq!(rate_line(0, 0), "RPS: NaN");
    assert_eq!(rate_line(9, 0), "RPS: inf");
}

#[test]
fn thousandths_are_written_with_three_places() {
    let mut text = String::new();
    push_thousandths(&mut text, 0);
    assert_eq!(text, "0.000");
    let mut text = String::new();
    push_thousandths(&mut text, 5);
    assert_eq!(text, "0.005");
    let mut text = String::new();
    push_thousandths(&mut text, 3002);
    assert_eq!(text, "3.002");
    let mut text = String::from("t=");
    push_thousandths(&mut text, 123_450);
    assert_eq!(text, "t=123.450");
}

#[test]
fn the_report_lists_urls_time_count_and_rate_in_that_order() {
    let urls = vec!["http://one.example".to_string(), "http://two.example/x".to_string()];
    let lines = report_lines(&urls, 5000, 500);
    assert_eq!(
        lines,
        vec![
            "".to_string(),
            "was requesting 2 urls:".to_string(),
            "http://one.example".to_string(),
            "http://two.example/x".to_string(),
            "elapsed time: 5.000s".to_string(),
            "# responses received: 500".to_string(),
            "RPS: 100.000".to_string(),
        ]
    );
}

#[test]
fn a_report_without_urls_has_five_lines() {
    let lines = report_lines(&Vec::new(), 1234, 0);
    assert_eq!(
        lines,
        vec![
            "".to_string(),
            "was requesting 0 urls:".to_string(),
            "elapsed time: 1.234s".to_string(),
            "# responses received: 0".to_string(),
            "RPS: 0.000".to_string(),
        ]
    );
}
