use revdeprun::summary::{decode_summary, decode_sysreqs, DecodeError};

#[test]
fn summary_of_empty_output_fails() {
    let err = decode_summary(b"").err().expect("empty output fails");
    assert_eq!(err, DecodeError::NoOutput);
    assert_eq!(err.message(), "no summary output");
    assert!(!err.is_malformed());
    assert_eq!(decode_summary(b"  \n").err(), Some(DecodeError::NoOutput));
}

#[test]
fn summary_with_count_only() {
    let s = decode_summary(br#"{"todo_count":0}"#).expect("decodes");
    assert_eq!(s.todo_count, 0);
    assert!(s.precache_failed.is_empty());
    assert!(s.warnings.is_empty());
}

#[test]
fn summary_with_warnings() {
    let s = decode_summary(br#"{"todo_count":3,"warnings":["w1"]}"#).expect("decodes");
    assert_eq!(s.todo_count, 3);
    assert!(s.precache_failed.is_empty());
    assert_eq!(s.warnings, vec!["w1".to_string()]);
}

#[test]
fn summary_malformed_inputs() {
    let err = decode_summary(b"queued 3 packages").err().expect("not JSON");
    assert_eq!(err, DecodeError::NotJson);
    assert!(err.is_malformed());
    assert_eq!(decode_summary(b"\xff\xfe").err(), Some(DecodeError::NotText));
    assert_eq!(decode_summary(br#"{"warnings":[]}"#).err(), Some(DecodeError::BadShape));
    assert_eq!(decode_summary(br#"{"todo_count":-1}"#).err(), Some(DecodeError::BadShape));
    assert_eq!(decode_summary(br#"{"todo_count":1.5}"#).err(), Some(DecodeError::BadShape));
    assert_eq!(decode_summary(br#"{"todo_count":1,"warnings":[1]}"#).err(), Some(DecodeError::BadShape));
    assert_eq!(decode_summary(br#"[1]"#).err(), Some(DecodeError::BadShape));
    assert_eq!(decode_summary(br#"{"todo_count":18446744073709551616}"#).err(), Some(DecodeError::BadShape));
}

#[test]
fn summary_full_payload() {
    let s = decode_summary(
        b"\n{\"todo_count\":18446744073709551615,\"precache_failed\":[\"a\",\"b\"],\"warnings\":[],\"extra\":true}\n",
    )
    .expect("decodes");
    assert_eq!(s.todo_count, u64::MAX);
    assert_eq!(s.precache_failed, vec!["a".to_string(), "b".to_string()]);
}

#[test]
fn deserializes_string_install_script() {
    let json = r#"
            {
                "install_scripts": "apt-get install libcurl4",
                "post_install": []
            }
        "#;
    let payload = decode_sysreqs(json.as_bytes()).expect("string payload should deserialize");
    assert_eq!(
        payload.install_scripts,
        vec!["apt-get install libcurl4".to_string()]
    );
    assert!(payload.post_install.is_empty());
}

#[test]
fn deserializes_null_install_scripts() {
    let json = r#"
            {
                "install_scripts": null,
                "post_install": "echo done"
            }
        "#;
    let payload = decode_sysreqs(json.as_bytes()).expect("null payload should deserialize");
    assert!(payload.install_scripts.is_empty());
    assert_eq!(payload.post_install, vec!["echo done".to_string()]);
}

#[test]
fn sysreqs_payload_shapes() {
    let p = decode_sysreqs(br#"{"install_scripts":["a","b"]}"#).expect("decodes");
    assert_eq!(p.install_scripts, vec!["a".to_string(), "b".to_string()]);
    assert!(p.post_install.is_empty());
    assert_eq!(decode_sysreqs(br#"{"install_scripts":3}"#).err(), Some(DecodeError::BadShape));
    assert_eq!(decode_sysreqs(br#"{"post_install":[null]}"#).err(), Some(DecodeError::BadShape));
}
