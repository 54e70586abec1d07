use goose_control::config::{decode_config, encode_config, GooseConfiguration};
use goose_control::grammar::{classify, Classification};
use goose_control::numbers::{format_u64, parse_u64};

fn sample() -> GooseConfiguration {
    GooseConfiguration {
        host: b"http://example.com:8080/".to_vec(),
        users: 42,
        hatch_rate: b"2.5".to_vec(),
    }
}

#[test]
fn test_format_u64_exact() {
    assert_eq!(format_u64(0), b"0".to_vec());
    assert_eq!(format_u64(7), b"7".to_vec());
    assert_eq!(format_u64(10), b"10".to_vec());
    assert_eq!(format_u64(90210), b"90210".to_vec());
    assert_eq!(format_u64(u64::MAX), b"18446744073709551615".to_vec());
}

#[test]
fn test_parse_u64_exact() {
    assert_eq!(parse_u64(b"0"), Some(0));
    assert_eq!(parse_u64(b"007"), Some(7));
    assert_eq!(parse_u64(b"90210"), Some(90210));
    assert_eq!(parse_u64(b"18446744073709551615"), Some(u64::MAX));
    assert_eq!(parse_u64(b"18446744073709551616"), None);
    assert_eq!(parse_u64(b""), None);
    assert_eq!(parse_u64(b"12x"), None);
}

#[test]
fn test_snapshot_encoding_exact() {
    let bytes = encode_config(&sample());
    assert_eq!(
        bytes,
        b"{\"host\":\"http://example.com:8080/\",\"users\":42,\"hatch_rate\":\"2.5\"}".to_vec()
    );
}

#[test]
fn test_snapshot_round_trip() {
    let cfg = sample();
    let bytes = encode_config(&cfg);
    let back = decode_config(&bytes).unwrap();
    assert_eq!(back, cfg);
}

#[test]
fn test_snapshot_round_trip_edges() {
    for cfg in [
        GooseConfiguration { host: b"".to_vec(), users: 0, hatch_rate: b"0".to_vec() },
        GooseConfiguration {
            host: b"http://a/".to_vec(),
            users: u64::MAX,
            hatch_rate: b"10.".to_vec(),
        },
        GooseConfiguration { host: b"h".to_vec(), users: 1, hatch_rate: b".5".to_vec() },
    ] {
        let bytes = encode_config(&cfg);
        assert_eq!(decode_config(&bytes).unwrap(), cfg);
    }
}

#[test]
fn test_decode_rejects_malformed() {
    assert!(decode_config(b"").is_none());
    assert!(decode_config(b"{}").is_none());
    assert!(decode_config(b"{\"host\":\"a\",\"users\":,\"hatch_rate\":\"1\"}").is_none());
    assert!(decode_config(b"{\"host\":\"a\",\"users\":5,\"hatch_rate\":\"\"}").is_none());
    assert!(decode_config(b"{\"host\":\"a\",\"users\":5,\"hatch_rate\":\"1\"} ").is_none());
}

#[test]
fn test_snapshot_is_valid_json() {
    let bytes = encode_config(&sample());
    let v: serde_json::Value = serde_json::from_slice(&bytes).unwrap();
    assert_eq!(v["host"].as_str(), Some("http://example.com:8080/"));
    assert_eq!(v["users"].as_u64(), Some(42));
    assert_eq!(v["hatch_rate"].as_str(), Some("2.5"));
}

#[test]
fn test_classifier_agrees_with_reference_patterns() {
    let users_re = regex::Regex::new(r"(?i)^users (\d+)$").unwrap();
    let hatch_re = regex::Regex::new(r"(?i)^hatchrate ([0-9]*(\.[0-9]*)?){1}$").unwrap();
    let lines: [&[u8]; 8] = [
        b"users 10",
        b"USERS 0",
        b"users x",
        b"hatchrate 2.5",
        b"hatchrate 10.",
        b"hatchrate .",
        b"stop",
        b"config",
    ];
    for line in lines {
        let text = std::str::from_utf8(line).unwrap();
        match classify(line) {
            Classification::Users(v) => {
                let caps = users_re.captures(text).unwrap();
                assert_eq!(caps.get(1).unwrap().as_str().as_bytes(), v.as_slice());
            }
            Classification::HatchRate(v) => {
                let caps = hatch_re.captures(text).unwrap();
                assert_eq!(caps.get(1).unwrap().as_str().as_bytes(), v.as_slice());
            }
            Classification::InvalidUsers => {
                // The keyword matched; the capture is empty or not numeric.
                assert!(users_re.captures(text).is_none());
            }
            Classification::InvalidHatchRate => {
                // The reference pattern admits an empty capture; the grammar
                // instead reports it as an invalid value.
                if let Some(caps) = hatch_re.captures(text) {
                    let cap = caps.get(1).unwrap().as_str();
                    assert!(!cap.bytes().any(|b| b.is_ascii_digit()));
                }
            }
            Classification::Stop => assert_eq!(text.to_lowercase(), "stop"),
            Classification::Config => assert_eq!(text.to_lowercase(), "config"),
            other => panic!("unexpected class for {:?}: {:?}", text, other),
        }
    }
}

#[test]
fn test_classifier_precedence_and_totality() {
    assert_eq!(classify(b"exit"), Classification::Quit);
    assert_eq!(classify(b"quit"), Classification::Quit);
    assert_eq!(classify(b"eXiT"), Classification::Quit);
    assert_eq!(classify(b"echo"), Classification::Echo);
    assert_eq!(classify(b""), Classification::Unrecognized);
    assert_eq!(classify(b"exit now"), Classification::Unrecognized);
    assert_eq!(classify(b"users 10 "), Classification::InvalidUsers);
    assert_eq!(classify(b"users  10"), Classification::InvalidUsers);
    assert_eq!(classify(b"hatchrate 2.5"), Classification::HatchRate(b"2.5".to_vec()));
    assert_eq!(classify(b"hatchrate 25"), Classification::HatchRate(b"25".to_vec()));
    assert_eq!(classify(b"hatchrate .5"), Classification::HatchRate(b".5".to_vec()));
}
