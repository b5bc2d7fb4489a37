use mer_iot::config::load::{
    decode_text_bytes, decode_utf16_be, decode_utf16_le, expand_placeholders, placeholder_names,
};
use mer_iot::error::MerError;

fn vars(pairs: &[(&str, &str)]) -> Vec<(String, String)> {
    pairs.iter().map(|(k, v)| (k.to_string(), v.to_string())).collect()
}

#[test]
fn test_expand_env_vars_no_placeholders() {
    let input = "broker: mqtt://localhost:1883";
    assert_eq!(expand_placeholders(input, &Vec::new()).unwrap(), input);
}

#[test]
fn test_expand_env_vars_substitutes_value() {
    let env = vars(&[("MER_TEST_BROKER", "mqtt://broker.example.com:1883")]);
    let input = "broker: ${MER_TEST_BROKER}";
    let result = expand_placeholders(input, &env).unwrap();
    assert_eq!(result, "broker: mqtt://broker.example.com:1883");
}

#[test]
fn test_expand_env_vars_multiple_placeholders() {
    let env = vars(&[("MER_TEST_USER", "alice"), ("MER_TEST_PASS", "s3cr3t")]);
    let input = "username: ${MER_TEST_USER}\npassword: ${MER_TEST_PASS}";
    let result = expand_placeholders(input, &env).unwrap();
    assert_eq!(result, "username: alice\npassword: s3cr3t");
}

#[test]
fn test_expand_env_vars_missing_var_returns_error() {
    let input = "token: ${MER_TEST_NONEXISTENT_VAR_XYZ}";
    let err = expand_placeholders(input, &Vec::new()).unwrap_err();
    match err {
        MerError::MissingEnvVar { name } => {
            assert_eq!(name, "MER_TEST_NONEXISTENT_VAR_XYZ");
        }
        other => panic!("Expected MissingEnvVar, got: {:?}", other),
    }
}

#[test]
fn test_read_text_file_utf16_le_bom() {
    let content = "protocol: mqtt\n";
    let mut bytes = vec![0xFF, 0xFE];
    for ch in content.encode_utf16() {
        bytes.extend_from_slice(&ch.to_le_bytes());
    }
    assert_eq!(decode_text_bytes(&bytes).unwrap(), content);
}

#[test]
fn placeholders_follow_the_name_grammar() {
    let env = vars(&[("A", "1"), ("_b2", "two"), ("A", "shadowed")]);
    assert_eq!(expand_placeholders("${A}${_b2}", &env).unwrap(), "1two");
    // not placeholders: digit first, empty name, unclosed, bad character
    let literal = "${1A} ${} ${A ${A-B} $A";
    assert_eq!(expand_placeholders(literal, &env).unwrap(), literal);
    assert_eq!(expand_placeholders("$${A}}", &env).unwrap(), "$1}");
    assert_eq!(
        placeholder_names("x ${ONE} ${1no} ${TWO}${ONE}"),
        vec!["ONE".to_string(), "TWO".to_string(), "ONE".to_string()]
    );
}

#[test]
fn first_missing_placeholder_is_reported() {
    let env = vars(&[("SET", "v")]);
    match expand_placeholders("${SET} ${FIRST} ${SECOND}", &env) {
        Err(MerError::MissingEnvVar { name }) => assert_eq!(name, "FIRST"),
        other => panic!("unexpected: {:?}", other),
    }
    let e = MerError::MissingEnvVar { name: "X".to_string() };
    assert_eq!(e.message(), "Environment variable 'X' is not set");
}

#[test]
fn text_decoding_handles_marks_and_errors() {
    assert_eq!(decode_text_bytes(b"plain").unwrap(), "plain");
    assert_eq!(decode_text_bytes(&[0xEF, 0xBB, 0xBF, b'h', b'i']).unwrap(), "hi");
    assert_eq!(decode_text_bytes(&[0xFE, 0xFF, 0x00, b'o', 0x00, b'k']).unwrap(), "ok");
    assert_eq!(decode_text_bytes(&[]).unwrap(), "");
    match decode_text_bytes(&[0xFF, 0xFE, 0x41]) {
        Err(MerError::Io(m)) => assert_eq!(m, "invalid UTF-16 LE data: odd byte length"),
        other => panic!("unexpected: {:?}", other),
    }
    match decode_utf16_be(&[0x00]) {
        Err(MerError::Io(m)) => assert_eq!(m, "invalid UTF-16 BE data: odd byte length"),
        other => panic!("unexpected: {:?}", other),
    }
    match decode_text_bytes(&[0xC3, 0x28]) {
        Err(MerError::Io(m)) => {
            assert!(m.starts_with("stream did not contain valid UTF-8: "), "got {}", m)
        }
        other => panic!("unexpected: {:?}", other),
    }
    // an unpaired high surrogate
    match decode_utf16_le(&[0x00, 0xD8]) {
        Err(MerError::Io(m)) => {
            assert_eq!(m, "invalid UTF-16 LE data: invalid utf-16: lone surrogate found")
        }
        other => panic!("unexpected: {:?}", other),
    }
    // a surrogate pair: U+1F600
    assert_eq!(decode_utf16_le(&[0x3D, 0xD8, 0x00, 0xDE]).unwrap(), "\u{1F600}");
}

#[test]
fn texts_survive_encoding_and_decoding() {
    for text in ["", "plain", "h\u{e9}llo \u{1F600} w\u{f6}rld", "\u{FEFF}marked"] {
        let mut with_mark = vec![0xEF, 0xBB, 0xBF];
        with_mark.extend_from_slice(text.as_bytes());
        assert_eq!(decode_text_bytes(&with_mark).unwrap(), text);
        if !text.starts_with('\u{FEFF}') {
            assert_eq!(decode_text_bytes(text.as_bytes()).unwrap(), text);
        }
        let mut le = vec![0xFF, 0xFE];
        let mut be = vec![0xFE, 0xFF];
        for unit in text.encode_utf16() {
            le.extend_from_slice(&unit.to_le_bytes());
            be.extend_from_slice(&unit.to_be_bytes());
        }
        assert_eq!(decode_text_bytes(&le).unwrap(), text);
        assert_eq!(decode_text_bytes(&be).unwrap(), text);
    }
    // without its mark, a leading U+FEFF is read as the mark
    assert_eq!(decode_text_bytes("\u{FEFF}marked".as_bytes()).unwrap(), "marked");
}
