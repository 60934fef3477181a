use content_core::decimal::{format_i64, parse_i64};
use content_core::signed_url::query::{decode, value_of};
use content_core::signed_url::service::{join_paths, split_segments};
use content_core::text::{chars_of, find_from, str_eq, string_of};

fn chars(s: &str) -> Vec<char> {
    s.chars().collect()
}

#[test]
fn chars_and_strings() {
    for sample in ["", "a", "héllo wörld", "\u{1F600}\n"] {
        assert_eq!(chars_of(sample), chars(sample));
        assert_eq!(string_of(&chars(sample)), sample);
        assert!(str_eq(sample, sample));
    }
    assert!(!str_eq("a", "b"));
    assert!(!str_eq("a", "ab"));
    assert!(!str_eq("ab", "a"));
    assert_eq!(find_from(&chars("a/b/c"), 0, '/'), 1);
    assert_eq!(find_from(&chars("a/b/c"), 2, '/'), 3);
    assert_eq!(find_from(&chars("a/b/c"), 4, '/'), 5);
    assert_eq!(find_from(&chars(""), 0, '/'), 0);
}

#[test]
fn numbers_are_written_as_std_writes_them() {
    let numbers = [0, 1, -1, 9, 10, 11, 99, 100, 200, -200, 1_700_000_000, i64::MAX, i64::MIN];
    for n in numbers {
        assert_eq!(string_of(&format_i64(n)), n.to_string());
        assert_eq!(parse_i64(&format_i64(n)), Some(n));
    }
}

#[test]
fn numbers_are_read_as_std_reads_them() {
    let texts = [
        "0", "-0", "+0", "007", "-007", "+7", "", "-", "+", "--1", "+-1", "1-", "1 ", " 1", "1_0",
        "0x10", "１２", "12a", "9223372036854775807", "9223372036854775808",
        "-9223372036854775808", "-9223372036854775809", "18446744073709551616",
        "000000000000000000000000000000000000009223372036854775807",
        "99999999999999999999999999999999999999999999999999",
    ];
    for text in texts {
        assert_eq!(parse_i64(&chars(text)), text.parse::<i64>().ok(), "{:?}", text);
    }
}

#[test]
fn escapes_of_ascii_are_decoded() {
    let cases = [
        ("", ""),
        ("abc", "abc"),
        ("a+b", "a b"),
        ("a%20b", "a b"),
        ("%41%42%43", "ABC"),
        ("%3D%3d", "=="),
        ("%2B", "+"),
        ("%25", "%"),
        ("%", "%"),
        ("%4", "%4"),
        ("%zz", "%zz"),
        ("%4z1", "%4z1"),
        ("%7F", "\u{7f}"),
        ("%80", "%80"),
        ("%ff", "%ff"),
        ("%C3%A9", "%C3%A9"),
        ("%%41", "%A"),
        ("%+41", "% 41"),
        ("é+ü", "é ü"),
        ("%00", "\0"),
    ];
    for (encoded, plain) in cases {
        assert_eq!(string_of(&decode(&chars(encoded))), plain, "{:?}", encoded);
    }
}

#[test]
fn the_last_field_of_a_key_gives_its_value() {
    let value = |q: &str, k: &str| value_of(&chars(q), &chars(k)).map(|v| string_of(&v));
    assert_eq!(value("a=1&b=2", "a"), Some("1".to_string()));
    assert_eq!(value("a=1&b=2", "b"), Some("2".to_string()));
    assert_eq!(value("a=1&b=2", "c"), None);
    assert_eq!(value("a=1&a=2", "a"), Some("2".to_string()));
    assert_eq!(value("a=1&a", "a"), Some("".to_string()));
    assert_eq!(value("a", "a"), Some("".to_string()));
    assert_eq!(value("a=", "a"), Some("".to_string()));
    assert_eq!(value("a==", "a"), Some("=".to_string()));
    assert_eq!(value("", ""), Some("".to_string()));
    assert_eq!(value("", "a"), None);
    assert_eq!(value("=x", ""), Some("x".to_string()));
    assert_eq!(value("a=1&", ""), Some("".to_string()));
    assert_eq!(value("%61=%31", "a"), Some("1".to_string()));
    assert_eq!(value("a+b=c+d", "a b"), Some("c d".to_string()));
    assert_eq!(value("a=1;b=2", "a"), Some("1;b=2".to_string()));
    assert_eq!(value("a[b]=1", "a"), None);
}

#[test]
fn paths_are_joined_with_one_slash() {
    assert_eq!(join_paths("/", "test"), "/test");
    assert_eq!(join_paths("/api", "test"), "/api/test");
    assert_eq!(join_paths("/api/", "test"), "/api/test");
    assert_eq!(join_paths("/api", "/test"), "/test");
    assert_eq!(join_paths("", "test"), "test");
    assert_eq!(join_paths("/api", ""), "/api/");
    assert_eq!(join_paths("", ""), "");
    assert_eq!(join_paths("/a", "b/c"), "/a/b/c");
}

#[test]
fn paths_have_two_segments_or_none() {
    let split = |p: &str| split_segments(p);
    assert_eq!(split("/a/b"), Some(("a".to_string(), "b".to_string())));
    assert_eq!(
        split("/server_picture/index.jpg"),
        Some(("server_picture".to_string(), "index.jpg".to_string()))
    );
    assert_eq!(split("/é/ü"), Some(("é".to_string(), "ü".to_string())));
    for path in ["", "/", "a/b", "/a", "/a/", "//b", "//", "/a/b/", "/a/b/c", "/a//b", "a", "///"] {
        assert_eq!(split(path), None, "{:?}", path);
    }
}

#[test]
fn queries_are_read_as_serde_qs_reads_them() {
    let queries = [
        "action=Put&expires=200&signature=XWKeETdB2NsiAAdfcrayGOr3S7IMX929ewYVwSVtRbM=",
        "signature=XWKeETdB2NsiAAdfcrayGOr3S7IMX929ewYVwSVtRbM%3D&expires=200&action=Put",
        "action=Get&utm_source=mail&expires=-5&signature=a+b%20c",
        "action=Delete&expires=0&signature=",
        "a=1&b=2&c=3",
        "a=%41%42&b=x%3Dy&c=%2B",
        "a=1",
        "",
    ];
    for query in queries {
        let theirs: std::collections::HashMap<String, String> =
            serde_qs::from_str(query).expect(query);
        for key in ["action", "expires", "signature", "utm_source", "a", "b", "c", "missing"] {
            let ours = value_of(&chars(query), &chars(key)).map(|v| string_of(&v));
            assert_eq!(ours.as_ref(), theirs.get(key), "{:?} in {:?}", key, query);
        }
    }
}
