use voidemu::decimal::{decimal, parse_u64, signed_decimal};
use voidemu::text::{join_texts, trim};
use voidemu::version::{parse_version_numbers, prev_version, prev_version_url};

#[test]
fn decimal_writes_shortest_form() {
    assert_eq!(decimal(0), "0");
    assert_eq!(decimal(7), "7");
    assert_eq!(decimal(5554), "5554");
    assert_eq!(decimal(u64::MAX), "18446744073709551615");
    assert_eq!(signed_decimal(-1), "-1");
    assert_eq!(signed_decimal(0), "0");
    assert_eq!(signed_decimal(i32::MIN), "-2147483648");
    assert_eq!(signed_decimal(42), "42");
}

#[test]
fn parse_follows_std() {
    for s in ["0", "7", "+7", "007", "18446744073709551615", "", "+", "-", "-1", "1a", " 1",
              "18446744073709551616", "99999999999999999999", "+0", "1.0", "١"] {
        assert_eq!(parse_u64(s), s.parse::<u64>().ok(), "input {:?}", s);
    }
}

#[test]
fn decimal_round_trips() {
    for n in [0u64, 1, 9, 10, 99, 100, 12345, u64::MAX] {
        assert_eq!(parse_u64(&decimal(n)), Some(n));
    }
}

#[test]
fn trim_matches_std() {
    for s in ["", "  ", " a ", "\t\nabc\r\n", "\u{3000}x\u{2028}", "a b", "\u{85}q\u{a0}"] {
        assert_eq!(trim(s), s.trim());
    }
}

#[test]
fn join_matches_std() {
    let names: Vec<String> = vec!["qemu".to_string(), "share".to_string(), "x.dll".to_string()];
    assert_eq!(join_texts(&names, ", "), names.join(", "));
    assert_eq!(join_texts(&Vec::new(), ", "), "");
    assert_eq!(join_texts(&vec!["one".to_string()], ", "), "one");
}

#[test]
fn version_numbers_as_split_and_filter() {
    assert_eq!(parse_version_numbers("2.6.3"), vec![2, 6, 3]);
    assert_eq!(parse_version_numbers("1..2.3"), vec![1, 2, 3]);
    assert_eq!(parse_version_numbers("v2.6.3"), vec![6, 3]);
    assert_eq!(parse_version_numbers(""), Vec::<u64>::new());
    assert_eq!(parse_version_numbers("2.6.3-beta"), vec![2, 6]);
}

#[test]
fn previous_versions() {
    let s = |v: &str| prev_version(v).map(|c| c.into_iter().collect::<String>());
    assert_eq!(s("2.3.1"), Some("2.3.0".to_string()));
    assert_eq!(s("2.3.0"), Some("2.2.9".to_string()));
    assert_eq!(s("2.0.0"), None);
    assert_eq!(s("2.3"), None);
    assert_eq!(s("2.3.1.4"), None);
    assert_eq!(s("02.3.1"), Some("2.3.0".to_string()));
}

#[test]
fn prev_version_url_rewrites_version() {
    assert_eq!(
        prev_version_url(
            "https://github.com/x/VoidEm/releases/download/v2.3.1/VoidEmulator.exe",
            "2.3.1"
        ),
        Some("https://github.com/x/VoidEm/releases/download/v2.3.0/VoidEmulator.exe".to_string())
    );
    assert_eq!(
        prev_version_url("https://example.com/2.3.0/VoidEmulator-v2.3.0.exe", "2.3.0"),
        Some("https://example.com/2.2.9/VoidEmulator-v2.2.9.exe".to_string())
    );
    assert_eq!(prev_version_url("https://example.com/a.exe", "1.0.0"), None);
    assert_eq!(
        prev_version_url("https://example.com/latest.exe", "1.0.5"),
        Some("https://example.com/latest.exe".to_string())
    );
    assert_eq!(
        prev_version_url("v1.2.3v1.2.3", "1.2.3"),
        Some("v1.2.2v1.2.2".to_string())
    );
}

#[test]
fn prev_version_url_matches_reference_formula() {
    fn reference_formula(url: &str, version: &str) -> Option<String> {
        let parts: Vec<u64> = version.split('.').filter_map(|p| p.parse().ok()).collect();
        if parts.len() != 3 {
            return None;
        }
        let (major, minor, patch) = (parts[0], parts[1], parts[2]);
        let prev_ver = if patch > 0 {
            format!("{}.{}.{}", major, minor, patch - 1)
        } else if minor > 0 {
            format!("{}.{}.9", major, minor - 1)
        } else {
            return None;
        };
        Some(
            url.replace(&format!("v{}", version), &format!("v{}", prev_ver))
                .replace(&format!("/{}/", version), &format!("/{}/", prev_ver)),
        )
    }
    let urls = ["https://h/v1.2.3/a", "https://h/1.2.3/a-v1.2.3", "/1.0.0/", "x", "v1.0.0.1", "1.2.3"];
    let versions = ["1.2.3", "1.0.0", "0.0.0", "1.2", "1..2.3", "a.1.2.3", "10.0.0", "1.2.3.", ""];
    for u in urls {
        for v in versions {
            assert_eq!(prev_version_url(u, v), reference_formula(u, v), "{} {}", u, v);
        }
    }
}
