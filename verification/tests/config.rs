use proxy_exerciser::args::{urls, Args, DEFAULT_PORT, DEFAULT_RPS};
use proxy_exerciser::decimal::{push_decimal, push_padded, render};

#[test]
fn default_urls_are_the_four_plain_http_endpoints() {
    let list = urls();
    assert_eq!(
        list,
        vec![
            "http://http.badssl.com".to_string(),
            "http://majesticgrandastoundinglight.neverssl.com/online/".to_string(),
            "http://icio.us".to_string(),
            "http://httpforever.com".to_string(),
        ]
    );
}

#[test]
fn defaults_are_rate_100_and_port_1080() {
    assert_eq!(DEFAULT_RPS, 100);
    assert_eq!(DEFAULT_PORT, 1080);
    let args = Args { urls: urls(), rps: DEFAULT_RPS, port: DEFAULT_PORT, clients: 3 };
    assert_eq!(args.urls.len(), 4);
    assert!(args.is_valid());
}

#[test]
fn a_configuration_needs_a_url_a_rate_and_a_fan_out() {
    let good = Args { urls: vec!["http://a".to_string()], rps: 1, port: 0, clients: 1 };
    assert!(good.is_valid());
    let no_urls = Args { urls: Vec::new(), rps: 1, port: 0, clients: 1 };
    assert!(!no_urls.is_valid());
    let no_rate = Args { urls: vec!["http://a".to_string()], rps: 0, port: 0, clients: 1 };
    assert!(!no_rate.is_valid());
    let no_clients = Args { urls: vec!["http://a".to_string()], rps: 1, port: 0, clients: 0 };
    assert!(!no_clients.is_valid());
}

#[test]
fn numerals_have_no_leading_zero() {
    assert_eq!(render(0), "0");
    assert_eq!(render(7), "7");
    assert_eq!(render(10), "10");
    assert_eq!(render(1080), "1080");
    assert_eq!(render(65535), "65535");
    assert_eq!(render(1_000_000), "1000000");
    assert_eq!(render(u64::MAX as u128), "18446744073709551615");
    assert_eq!(render(u128::MAX), "340282366920938463463374607431768211455");
}

#[test]
fn numerals_are_appended_to_what_is_there() {
    let mut text = String::from("port ");
    push_decimal(&mut text, 8080);
    assert_eq!(text, "port 8080");
    push_decimal(&mut text, 0);
    assert_eq!(text, "port 80800");
}

#[test]
fn padded_numerals_have_the_width_asked_for() {
    let mut text = String::new();
    push_padded(&mut text, 7, 3);
    assert_eq!(text, "007");
    let mut text = String::new();
    push_padded(&mut text, 120, 3);
    assert_eq!(text, "120");
    let mut text = String::new();
    push_padded(&mut text, 0, 3);
    assert_eq!(text, "000");
    let mut text = String::new();
    push_padded(&mut text, 12345, 3);
    assert_eq!(text, "345");
    let mut text = String::from("x");
    push_padded(&mut text, 9, 0);
    assert_eq!(text, "x");
}
