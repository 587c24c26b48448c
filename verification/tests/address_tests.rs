use backend::address::{is_ipv4, MAX_PORT};
use backend::config::{Config, Environment};
use backend::decimal::parse_u32;

#[test]
fn largest_port_is_sixteen_bits() {
    assert_eq!(MAX_PORT, 65535);
}

#[test]
fn dotted_quads_are_recognised() {
    assert!(is_ipv4("0.0.0.0"));
    assert!(is_ipv4("127.0.0.1"));
    assert!(is_ipv4("255.255.255.255"));
    assert!(is_ipv4("1.22.133.4"));
    assert!(is_ipv4("199.200.249.250"));
}

#[test]
fn wrong_number_of_octets_is_refused() {
    assert!(!is_ipv4(""));
    assert!(!is_ipv4("1"));
    assert!(!is_ipv4("1.2"));
    assert!(!is_ipv4("1.2.3"));
    assert!(!is_ipv4("1.2.3.4.5"));
    assert!(!is_ipv4("..."));
}

#[test]
fn empty_octets_are_refused() {
    assert!(!is_ipv4(".2.3.4"));
    assert!(!is_ipv4("1..3.4"));
    assert!(!is_ipv4("1.2.3."));
    assert!(!is_ipv4("1.2.3.4."));
}

#[test]
fn octets_above_255_are_refused() {
    assert!(!is_ipv4("256.0.0.1"));
    assert!(!is_ipv4("1.2.3.260"));
    assert!(!is_ipv4("1.999.3.4"));
    assert!(!is_ipv4("1.2.3.1000"));
}

#[test]
fn leading_zeros_are_refused() {
    assert!(!is_ipv4("01.2.3.4"));
    assert!(!is_ipv4("1.2.3.00"));
    assert!(!is_ipv4("1.2.003.4"));
    assert!(is_ipv4("0.0.0.0"));
    assert!(is_ipv4("10.0.100.0"));
}

#[test]
fn anything_but_digits_and_dots_is_refused() {
    assert!(!is_ipv4("localhost"));
    assert!(!is_ipv4("1.2.3.4 "));
    assert!(!is_ipv4(" 1.2.3.4"));
    assert!(!is_ipv4("1.2.3.+4"));
    assert!(!is_ipv4("1.2.3.-4"));
    assert!(!is_ipv4("1.2.3.4:80"));
    assert!(!is_ipv4("::1"));
    assert!(!is_ipv4("1.2.3.\u{0664}"));
    assert!(!is_ipv4("a.b.c.d"));
}

#[test]
fn each_sample_is_judged_by_the_dotted_quad_rule() {
    let samples = [
        ("", false),
        ("0.0.0.0", true),
        ("127.0.0.1", true),
        ("255.255.255.255", true),
        ("256.0.0.0", false),
        ("1.2.3", false),
        ("1.2.3.4.5", false),
        ("01.2.3.4", false),
        ("1.02.3.4", false),
        ("1.2.3.04", false),
        ("0.00.0.0", false),
        ("1..2.3", false),
        ("0001.2.3.4", false),
        ("1.2.3.0255", false),
        ("192.168.1.1", true),
        ("9.99.199.249", true),
        ("999.1.1.1", false),
        ("1.2.3.4\n", false),
        ("1,2,3,4", false),
    ];
    for (text, expected) in samples.iter() {
        assert_eq!(is_ipv4(text), *expected);
    }
}

#[test]
fn resolved_host_and_port_spell_a_socket_address() {
    let hosts = ["0.0.0.0", "127.0.0.1", "255.255.255.255", "10.1.2.3"];
    let ports = [("0", "0"), ("80", "80"), ("+443", "443"), ("008080", "8080"), ("65535", "65535")];
    for host in hosts.iter() {
        for (port, written) in ports.iter() {
            let env = Environment {
                host_ip: Some(String::from(*host)),
                port: Some(String::from(*port)),
                frontend_dir: Some(String::from(if std::path::Path::new("/").is_absolute() {
                    "/srv"
                } else {
                    "C:\\srv"
                })),
                file_store_dir: Some(String::from("store")),
                rust_log: None,
                model_path: Some(String::from("m")),
                vad_model_path: Some(String::from("v")),
                current_dir: None,
            };
            let config = Config::new(env).unwrap();
            let text = config.get_host_socket_addr();
            assert_eq!(text, format!("{}:{}", host, written));
            let (before, after) = text.split_at(text.len() - written.len() - 1);
            assert!(is_ipv4(before));
            assert_eq!(parse_u32(&after[1..]), Some(config.port));
            assert!(config.port <= MAX_PORT);
        }
    }
}
