use content_core::setup::{
    admin_key_name, check_if_need_to_setup, create_buckets, extract_value, is_initial_layout,
    key_variables, line_mentions, node_id, setup_signing_key, should_init_env_file, squeeze,
    update_env_var, wait_until_s3_up, Probe, Step, MAX_RETRIES,
};
use content_core::text::{chars_of, has_substring, is_space, lines_of, string_of, trimmed};

const SAMPLES: [&str; 16] = [
    "",
    "\n",
    "\r",
    "\r\n",
    "a",
    "a\n",
    "a\r\n",
    "a\r",
    "foo\nbar\n\r\nbaz\r",
    "\n\nx\n\n",
    "PORT=3000\nORIGINS=beep.com\r\nS3_ENDPOINT=http://0.0.0.0:3900/\n",
    "  Key ID: GK31c2f218a2e44f485b94239e  \nSecret key: b892c0665f0ada8a4755dae98baa3b133590e11dae3bcc1f9d769d67f16c3835\n",
    "\u{a0}\t padded \u{3000}\u{2003}",
    "x\r\r\ny",
    "é\nü\r\n\u{1F600}",
    "tab\tinside and  two spaces",
];

#[test]
fn lines_are_those_of_std() {
    for sample in SAMPLES {
        let ours: Vec<String> = lines_of(&chars_of(sample)).iter().map(string_of).collect();
        let theirs: Vec<String> = sample.lines().map(|l| l.to_string()).collect();
        assert_eq!(ours, theirs, "{:?}", sample);
    }
}

#[test]
fn trim_is_that_of_std() {
    for sample in SAMPLES {
        assert_eq!(string_of(&trimmed(&chars_of(sample))), sample.trim(), "{:?}", sample);
    }
    for code in 0..0x3100u32 {
        if let Some(c) = char::from_u32(code) {
            assert_eq!(is_space(c), c.is_whitespace(), "{:x}", code);
        }
    }
}

#[test]
fn substrings_are_those_of_std() {
    let patterns = ["", "a", "\n", "\r\n", "Key", "key", "PORT", "baz\r", "x\n\n", "  ", "é\n"];
    for sample in SAMPLES {
        for pattern in patterns {
            assert_eq!(
                has_substring(&chars_of(sample), &chars_of(pattern)),
                sample.contains(pattern),
                "{:?} in {:?}",
                pattern,
                sample
            );
            assert_eq!(
                line_mentions(sample, pattern),
                sample.lines().any(|line| line.contains(pattern)),
                "{:?} in a line of {:?}",
                pattern,
                sample
            );
        }
    }
}

#[test]
fn squeeze_is_replace_of_std() {
    for sample in SAMPLES {
        assert_eq!(
            string_of(&squeeze(&chars_of(sample), true)),
            sample.replace([' ', '\r', '\n'], ""),
            "{:?}",
            sample
        );
        assert_eq!(
            string_of(&squeeze(&chars_of(sample), false)),
            sample.replace(['\r', '\n'], ""),
            "{:?}",
            sample
        );
    }
}

#[test]
fn setup_is_needed_while_a_bucket_is_missing() {
    assert!(check_if_need_to_setup(""));
    assert!(check_if_need_to_setup("List of buckets:\n  beep    3ff6bbd3\n"));
    assert!(check_if_need_to_setup("List of buckets:\n  test    3ff6bbd3\n"));
    assert!(check_if_need_to_setup("be\nep te\nst"));
    assert!(!check_if_need_to_setup("List of buckets:\n  beep    3ff6\n  test    9ab1\n"));
    assert!(!check_if_need_to_setup("beeptest"));
    assert_eq!(create_buckets(""), vec!["beep", "test"]);
    assert_eq!(create_buckets("  beep    3ff6bbd3\n"), vec!["test"]);
    assert_eq!(create_buckets("  test    3ff6bbd3\n"), vec!["beep"]);
    assert_eq!(create_buckets("  test\n  beep\n"), Vec::<&str>::new());
}

#[test]
fn keys_are_named_after_their_buckets() {
    assert_eq!(admin_key_name("beep"), "beep_admin");
    assert_eq!(admin_key_name("test"), "test_admin");
    assert_eq!(key_variables("beep"), Some(("KEY_ID", "SECRET_KEY")));
    assert_eq!(key_variables("test"), Some(("TEST_KEY_ID", "TEST_SECRET_KEY")));
    assert_eq!(key_variables("other"), None);
    assert_eq!(key_variables(""), None);
}

#[test]
fn env_file_is_written_anew_while_a_setting_is_missing() {
    let full = "ORIGINS=a\nPORT=1\nOTEL_EXPORTER_OTLP_ENDPOINT=b\nS3_ENDPOINT=c\nBASE_URL=d\n";
    assert!(!should_init_env_file(full));
    assert!(should_init_env_file(""));
    for key in ["ORIGINS", "PORT", "OTEL_EXPORTER_OTLP_ENDPOINT", "S3_ENDPOINT", "BASE_URL"] {
        let partial = full.replace(key, "X");
        assert!(should_init_env_file(&partial), "{}", key);
    }
    assert!(!should_init_env_file("ORIGINSPORTOTEL_EXPORTER_OTLP_ENDPOINTS3_ENDPOINTBASE_URL"));
}

#[test]
fn env_var_is_replaced_or_added() {
    assert_eq!(update_env_var("", "KEY_ID", "GK1"), "KEY_ID=GK1\n");
    assert_eq!(update_env_var("PORT=3000", "KEY_ID", "GK1"), "PORT=3000\nKEY_ID=GK1\n");
    assert_eq!(update_env_var("PORT=3000\n", "KEY_ID", "GK1"), "PORT=3000\nKEY_ID=GK1\n");
    assert_eq!(
        update_env_var("PORT=3000\r\nKEY_ID=old\r\nB=2", "KEY_ID", "GK1"),
        "PORT=3000\nKEY_ID=GK1\nB=2\n"
    );
    assert_eq!(
        update_env_var("KEY_ID=a\nKEY_ID=b\n", "KEY_ID", "GK1"),
        "KEY_ID=GK1\nKEY_ID=GK1\n"
    );
    assert_eq!(
        update_env_var("TEST_KEY_ID=a\n KEY_ID=b\nKEY_IDS=c\n", "KEY_ID", "GK1"),
        "TEST_KEY_ID=a\n KEY_ID=b\nKEY_IDS=c\nKEY_ID=GK1\n"
    );
    assert_eq!(update_env_var("\n\n", "A", ""), "\n\nA=\n");
    assert_eq!(update_env_var("=x\n", "", "y"), "=y\n");
}

#[test]
fn value_is_what_follows_the_colon() {
    let output = "Key name: beep_admin\nKey ID: GK31c2f218a2e44f485b94239e\nSecret key: b892c066 5f0a\r\nCan create buckets: false\n";
    assert_eq!(extract_value(output, "Key ID"), "GK31c2f218a2e44f485b94239e");
    assert_eq!(extract_value(output, "Secret key"), "b892c0665f0a");
    assert_eq!(extract_value(output, "Key"), "beep_admin");
    assert_eq!(extract_value(output, "Can create"), "false");
    assert_eq!(extract_value(output, "Nothing"), "");
    assert_eq!(extract_value("", "Key ID"), "");
    assert_eq!(extract_value("Key ID GK1\nKey ID: GK2", "Key ID"), "GK2");
    assert_eq!(extract_value("a: b : c", "a"), "b");
    assert_eq!(extract_value("a:\t b\tc \u{a0}: d", "a"), "b\tc");
    assert_eq!(extract_value("x: Key ID", "Key ID"), "KeyID");
    assert_eq!(extract_value("Key ID:", "Key ID"), "");
    assert_eq!(extract_value("Key ID::x", "Key ID"), "");
}

#[test]
fn node_id_is_what_stands_before_the_at() {
    assert_eq!(node_id("563e1ac825ee3323@127.0.0.1:3901\n"), "563e1ac825ee3323");
    assert_eq!(node_id("  563e\r\n1ac8  @host"), "563e1ac8");
    assert_eq!(node_id("no at sign\n\n"), "no at sign");
    assert_eq!(node_id("@host"), "");
    assert_eq!(node_id(""), "");
}

#[test]
fn layout_is_initial_at_version_zero() {
    let fresh = "==== CURRENT CLUSTER LAYOUT ====\nNo nodes\n\nCurrent cluster layout version: 0\n";
    assert!(is_initial_layout(fresh));
    assert!(is_initial_layout("Current cluster layout version: 01"));
    assert!(!is_initial_layout("Current cluster layout version: 1\n"));
    assert!(!is_initial_layout("Current cluster layout version:\n 0"));
    assert!(!is_initial_layout(""));
}

#[test]
fn store_is_tried_thirty_times() {
    assert_eq!(MAX_RETRIES, 30);
    for attempt in [1, 2, 29, 30, 31, u32::MAX] {
        assert_eq!(wait_until_s3_up(attempt, Probe::Up), Step::Proceed);
    }
    for probe in [Probe::Down, Probe::NotServing] {
        assert_eq!(wait_until_s3_up(0, probe), Step::Retry);
        assert_eq!(wait_until_s3_up(1, probe), Step::Retry);
        assert_eq!(wait_until_s3_up(29, probe), Step::Retry);
        assert_eq!(wait_until_s3_up(30, probe), Step::GiveUp);
        assert_eq!(wait_until_s3_up(31, probe), Step::GiveUp);
    }
}

#[test]
fn signing_key_is_twenty_bytes_in_base64() {
    let entropy: Vec<u8> = (0u8..20).collect();
    assert_eq!(
        setup_signing_key(&entropy),
        Some("AAECAwQFBgcICQoLDA0ODxAREhM=".to_string())
    );
    assert_eq!(
        setup_signing_key(&[0xff; 20]),
        Some("//////////////////////////8=".to_string())
    );
    assert_eq!(setup_signing_key(&[0; 19]), None);
    assert_eq!(setup_signing_key(&[0; 21]), None);
    assert_eq!(setup_signing_key(&[]), None);
}
