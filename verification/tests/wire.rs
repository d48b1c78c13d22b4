use envvars::decoder::{decode, decode_pair, decode_value};
use envvars::encoder::encode;
use envvars::envmap::EnvironmentMap;
use envvars::error::Error;
use envvars::keys::{KEY_VALUE_SEP, MARKER, PAIR_SEP};

fn map_of(pairs: &[(&str, &str)]) -> EnvironmentMap {
    let mut map = EnvironmentMap::new();
    for (key, value) in pairs {
        map.insert(key.to_string(), value.to_string());
    }
    map
}

#[test]
fn decoder_test() {
    let pair_01 = ("key_01", "value_01");
    let pair_02 = ("key_02", "value_02");
    let map = decode(&format!(
        "{MARKER}{:?}{KEY_VALUE_SEP}{:?}{PAIR_SEP}{:?}{KEY_VALUE_SEP}{:?}{PAIR_SEP}{MARKER}",
        pair_01.0.as_bytes(),
        pair_01.1.as_bytes(),
        pair_02.0.as_bytes(),
        pair_02.1.as_bytes(),
    ))
    .expect("stdout should be decoded");
    assert_eq!(map.len(), 2);
    assert_eq!(
        map.get(pair_01.0).expect("Should have defined key"),
        pair_01.1
    );
    assert_eq!(
        map.get(pair_02.0).expect("Should have defined key"),
        pair_02.1
    );
}

#[test]
fn literals_are_the_documented_ones() {
    assert_eq!(KEY_VALUE_SEP, "||");
    assert_eq!(PAIR_SEP, ";;");
    assert_eq!(MARKER, "@@");
}

#[test]
fn encode_two_variables() {
    let map = map_of(&[("A", "1"), ("B", "2")]);
    assert_eq!(encode(&map), "@@[65]||[49];;[66]||[50];;@@");
}

#[test]
fn decode_two_variables() {
    let map = decode("@@[65]||[49];;[66]||[50];;@@").expect("decodes");
    assert_eq!(map.len(), 2);
    assert_eq!(map.get("A").unwrap(), "1");
    assert_eq!(map.get("B").unwrap(), "2");
}

#[test]
fn decode_passes_over_noise() {
    let map = decode("noise @@[65]||[49];;@@ more noise").expect("decodes");
    assert_eq!(map.len(), 1);
    assert_eq!(map.get("A").unwrap(), "1");
}

#[test]
fn encode_nothing() {
    assert_eq!(encode(&EnvironmentMap::new()), "@@@@");
    let map = decode("@@@@").expect("decodes");
    assert!(map.is_empty());
}

#[test]
fn encode_is_as_the_debug_form_of_bytes() {
    let map = map_of(&[("PATH", "/usr/bin:\u{e9}\0")]);
    let expected = format!(
        "{MARKER}{:?}{KEY_VALUE_SEP}{:?}{PAIR_SEP}{MARKER}",
        "PATH".as_bytes(),
        "/usr/bin:\u{e9}\0".as_bytes()
    );
    assert_eq!(encode(&map), expected);
    assert_eq!(
        encode(&map_of(&[("", "\u{ff}")])),
        "@@[]||[195, 191];;@@"
    );
}

#[test]
fn round_trip_keeps_every_variable() {
    let pairs = [
        ("PATH", "/usr/bin:/bin"),
        ("NUL", "a\0b"),
        ("UNICODE", "h\u{e9}llo \u{4e16}\u{754c} \u{1f600}"),
        ("SEPARATORS", "a||b;;c@@d"),
        ("LITERAL", "[1, 2]"),
        ("", ""),
        ("EMPTY", ""),
        ("k||;;@@", "@@"),
    ];
    let map = map_of(&pairs);
    let back = decode(&encode(&map)).expect("decodes");
    assert_eq!(back.len(), pairs.len());
    for (key, value) in pairs {
        assert_eq!(back.get(key).expect("key is there"), value);
    }
    for at in 0..map.len() {
        let (key, value) = map.entry(at);
        let (back_key, back_value) = back.entry(at);
        assert_eq!(key, back_key);
        assert_eq!(value, back_value);
    }
}

#[test]
fn round_trip_with_noise_around() {
    let map = map_of(&[("HOME", "/root"), ("SHELL", "/bin/bash")]);
    let text = format!("Last login: today\n{}\nbye\n", encode(&map));
    let back = decode(&text).expect("decodes");
    assert_eq!(back.len(), 2);
    assert_eq!(back.get("HOME").unwrap(), "/root");
    assert_eq!(back.get("SHELL").unwrap(), "/bin/bash");
}

#[test]
fn no_marker_is_no_output() {
    assert!(matches!(decode(""), Err(Error::NoExtractorOutput)));
    assert!(matches!(
        decode("[65]||[49];;"),
        Err(Error::NoExtractorOutput)
    ));
}

#[test]
fn one_marker_is_no_output() {
    assert!(matches!(
        decode("@@[65]||[49];;"),
        Err(Error::NoExtractorOutput)
    ));
    assert!(matches!(decode("@@"), Err(Error::NoExtractorOutput)));
}

#[test]
fn three_or_more_markers_are_no_output() {
    assert!(matches!(
        decode("@@[65]||[49];;@@@@"),
        Err(Error::NoExtractorOutput)
    ));
    assert!(matches!(
        decode("@@ @@ @@ @@"),
        Err(Error::NoExtractorOutput)
    ));
    assert!(matches!(
        decode("a@@b@@c@@d@@e"),
        Err(Error::NoExtractorOutput)
    ));
}

#[test]
fn markers_are_counted_without_overlap() {
    // "@@@" holds one marker and a lone '@' after it.
    assert!(matches!(decode("@@@"), Err(Error::NoExtractorOutput)));
    // "@@@@@" holds two markers and a lone '@' after them.
    let map = decode("@@@@@").expect("decodes");
    assert!(map.is_empty());
}

#[test]
fn malformed_pair_without_separator_is_dropped() {
    let map = decode("@@[65]||[49];;[66][50];;@@").expect("decodes");
    assert_eq!(map.len(), 1);
    assert_eq!(map.get("A").unwrap(), "1");
    assert!(map.get("B").is_none());
}

#[test]
fn malformed_pair_without_array_is_dropped() {
    let map = decode("@@B||[50];;[65]||[49];;[67]||nothing;;@@").expect("decodes");
    assert_eq!(map.len(), 1);
    assert_eq!(map.get("A").unwrap(), "1");
    assert!(!map.contains_key("B"));
    assert!(!map.contains_key("C"));
}

#[test]
fn pair_with_three_sides_is_dropped() {
    let map = decode("@@[65]||[49]||[50];;[66]||[50];;@@").expect("decodes");
    assert_eq!(map.len(), 1);
    assert_eq!(map.get("B").unwrap(), "2");
}

#[test]
fn pair_that_is_no_text_is_dropped() {
    let map = decode("@@[255]||[49];;[66]||[192, 128];;[67]||[51];;@@").expect("decodes");
    assert_eq!(map.len(), 1);
    assert_eq!(map.get("C").unwrap(), "3");
}

#[test]
fn later_pair_replaces_earlier_one() {
    let map = decode("@@[65]||[49];;[66]||[50];;[65]||[51];;@@").expect("decodes");
    assert_eq!(map.len(), 2);
    assert_eq!(map.get("A").unwrap(), "3");
    assert_eq!(map.get("B").unwrap(), "2");
    assert_eq!(map.entry(0).0, "A");
}

#[test]
fn missing_last_separator_still_decodes() {
    let map = decode("@@[65]||[49];;[66]||[50]@@").expect("decodes");
    assert_eq!(map.len(), 2);
}

#[test]
fn decode_value_reads_arrays_of_bytes() {
    assert_eq!(decode_value("[80, 65, 84, 72]"), Some("PATH".to_string()));
    assert_eq!(decode_value("[]"), Some(String::new()));
    assert_eq!(decode_value(" [ 65 ,66 ] "), Some("AB".to_string()));
    assert_eq!(decode_value("[65"), None);
    assert_eq!(decode_value("[256]"), None);
    assert_eq!(decode_value("[-1]"), None);
    assert_eq!(decode_value("\"A\""), None);
    assert_eq!(decode_value(""), None);
    assert_eq!(decode_value("[200]"), None);
}

#[test]
fn decode_pair_reads_both_sides() {
    assert_eq!(
        decode_pair("[65]||[49]"),
        Some(("A".to_string(), "1".to_string()))
    );
    assert_eq!(decode_pair("[65]|[49]"), None);
    assert_eq!(decode_pair("[65]"), None);
    assert_eq!(decode_pair(""), None);
    assert_eq!(decode_pair("[65]||"), None);
    assert_eq!(decode_pair("||[49]"), None);
    assert_eq!(decode_pair("[65]||[49]||"), None);
}
