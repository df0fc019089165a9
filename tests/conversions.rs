use hlapi::elisp2native;
use hlapi::error::{check_nul_terminated, nul_free, strip_trailing_zero_bytes, ConvErr};
use hlapi::host::{Prim, Value};
use hlapi::native2elisp;
use hlapi::sim::SimHost;
use hlapi::trampoline::{diagnostic_text, subr_return};
use hlapi::{eq, is_nil, message, register};

fn text_of(env: &mut SimHost, v: Value) -> String {
    elisp2native::string(env, v).expect("host string")
}

#[test]
fn integer_round_trip() {
    let mut env = SimHost::new();
    for n in [0i64, 1, -1, 42, i64::MAX, i64::MIN] {
        let v = native2elisp::integer(&mut env, n).unwrap();
        assert_eq!(elisp2native::int_value(&mut env, v), Ok(n));
    }
}

#[test]
fn text_round_trip() {
    let mut env = SimHost::new();
    for s in ["hello", "", "h\u{e9}llo \u{fc}nic\u{f6}de", "\u{1F600} ok"] {
        let v = native2elisp::string(&mut env, s.as_bytes()).unwrap();
        assert_eq!(elisp2native::string(&mut env, v), Ok(s.to_string()));
    }
}

#[test]
fn make_text_interior_nul_fails_with_position() {
    let mut env = SimHost::new();
    let r = native2elisp::string(&mut env, b"ab\0cd\0");
    assert_eq!(
        r,
        Err(ConvErr::FoundInteriorNulByte { pos: 2, bytes: Some(b"ab\0cd".to_vec()) })
    );
}

#[test]
fn make_text_strips_trailing_zeros() {
    let mut env = SimHost::new();
    let v = native2elisp::string(&mut env, b"abc\0\0\0").unwrap();
    assert_eq!(elisp2native::string(&mut env, v), Ok("abc".to_string()));
    assert_eq!(elisp2native::string_bytes(&mut env, v), Ok(b"abc\0".to_vec()));
    let e = native2elisp::string(&mut env, b"\0\0").unwrap();
    assert_eq!(elisp2native::string(&mut env, e), Ok(String::new()));
}

#[test]
fn strip_only_trailing_zeros() {
    let mut b = vec![97u8, 0, 98, 0, 0, 0];
    strip_trailing_zero_bytes(&mut b);
    assert_eq!(b, vec![97u8, 0, 98]);
    let mut all = vec![0u8, 0];
    strip_trailing_zero_bytes(&mut all);
    assert!(all.is_empty());
    let mut none = vec![1u8, 2];
    strip_trailing_zero_bytes(&mut none);
    assert_eq!(none, vec![1u8, 2]);
}

#[test]
fn nul_terminated_text_read() {
    let mut env = SimHost::new();
    let v = native2elisp::string(&mut env, b"path/x").unwrap();
    assert_eq!(elisp2native::cstring(&mut env, v), Ok(b"path/x\0".to_vec()));
    let bytes = elisp2native::string_bytes(&mut env, v).unwrap();
    assert_eq!(bytes, b"path/x\0".to_vec());
}

#[test]
fn nul_free_checks() {
    assert_eq!(nul_free(b"abc".to_vec()), Ok(b"abc".to_vec()));
    assert_eq!(
        nul_free(vec![1u8, 0, 2]),
        Err(ConvErr::FoundInteriorNulByte { pos: 1, bytes: Some(vec![1u8, 0, 2]) })
    );
}

#[test]
fn nul_terminated_checks() {
    assert_eq!(check_nul_terminated(b"abc\0"), Ok(()));
    assert_eq!(check_nul_terminated(b"abc"), Err(ConvErr::NotNulTerminated));
    assert_eq!(check_nul_terminated(b""), Err(ConvErr::NotNulTerminated));
    assert_eq!(
        check_nul_terminated(b"a\0c\0"),
        Err(ConvErr::FoundInteriorNulByte { pos: 1, bytes: None })
    );
}

#[test]
fn list_round_trip_sizes() {
    let mut env = SimHost::new();
    for k in [0usize, 1, 5] {
        let mut items = Vec::new();
        for i in 0..k {
            items.push(native2elisp::integer(&mut env, i as i64 * 10).unwrap());
        }
        let l = native2elisp::list(&mut env, &items);
        let back = elisp2native::list(&mut env, l).unwrap();
        assert_eq!(back, items);
    }
}

#[test]
fn string_list_in_order() {
    let mut env = SimHost::new();
    let l = native2elisp::string_list(&mut env, &["a", "bc", "d"]).unwrap();
    let items = elisp2native::list(&mut env, l).unwrap();
    let texts: Vec<String> = items.iter().map(|v| text_of(&mut env, *v)).collect();
    assert_eq!(texts, vec!["a".to_string(), "bc".to_string(), "d".to_string()]);
}

#[test]
fn string_list_reports_last_offending_entry() {
    let mut env = SimHost::new();
    let r = native2elisp::string_list(&mut env, &["a\0b", "ok", "xy\0z", "fine"]);
    assert_eq!(
        r,
        Err(ConvErr::FoundInteriorNulByte { pos: 2, bytes: Some(b"xy\0z".to_vec()) })
    );
}

#[test]
fn string_list_nul_fails() {
    let mut env = SimHost::new();
    let r = native2elisp::string_list(&mut env, &["ok", "x\0y"]);
    assert!(matches!(r, Err(ConvErr::FoundInteriorNulByte { pos: 1, .. })));
}

#[test]
fn list_of_non_list_fails() {
    let mut env = SimHost::new();
    let v = native2elisp::integer(&mut env, 7).unwrap();
    assert_eq!(
        elisp2native::list(&mut env, v),
        Err(ConvErr::WrongEmacsValueType { expected: "list".to_string(), got: Some(v) })
    );
}

#[test]
fn missing_extract_integer() {
    let mut env = SimHost::new();
    let v = native2elisp::integer(&mut env, 3).unwrap();
    env.remove_entry(Prim::ExtractInteger);
    assert_eq!(
        elisp2native::int_value(&mut env, v),
        Err(ConvErr::CoreFnMissing("extract_integer".to_string()))
    );
}

#[test]
fn missing_make_entries() {
    let mut env = SimHost::new();
    env.remove_entry(Prim::MakeInteger);
    env.remove_entry(Prim::MakeString);
    env.remove_entry(Prim::MakeFunction);
    env.remove_entry(Prim::MakeUserPtr);
    assert_eq!(
        native2elisp::integer(&mut env, 1),
        Err(ConvErr::CoreFnMissing("make_integer".to_string()))
    );
    assert_eq!(
        native2elisp::string(&mut env, b"x"),
        Err(ConvErr::CoreFnMissing("make_string".to_string()))
    );
    assert_eq!(
        native2elisp::function(&mut env, 0, 1, 9, b"doc\0", 0),
        Err(ConvErr::CoreFnMissing("make_function".to_string()))
    );
    assert_eq!(
        native2elisp::user_ptr(&mut env, 1, 0x1000),
        Err(ConvErr::CoreFnMissing("make_user_ptr".to_string()))
    );
    assert_eq!(
        native2elisp::symbol(&mut env, "x"),
        Err(ConvErr::CoreFnMissing("make_string".to_string()))
    );
}

#[test]
fn list_names_missing_integer_entries() {
    let mut env = SimHost::new();
    let one = native2elisp::integer(&mut env, 1).unwrap();
    let l = native2elisp::list(&mut env, &[one]);
    env.remove_entry(Prim::MakeInteger);
    assert_eq!(
        elisp2native::list(&mut env, l),
        Err(ConvErr::CoreFnMissing("make_integer".to_string()))
    );
    let empty = native2elisp::list(&mut env, &[]);
    assert_eq!(elisp2native::list(&mut env, empty), Ok(vec![]));
    env.remove_entry(Prim::ExtractInteger);
    assert_eq!(
        elisp2native::list(&mut env, l),
        Err(ConvErr::CoreFnMissing("extract_integer".to_string()))
    );
    let seven = native2elisp::integer(&mut env, 7);
    assert!(seven.is_err());
    assert_eq!(
        elisp2native::list(&mut env, one),
        Err(ConvErr::WrongEmacsValueType { expected: "list".to_string(), got: Some(one) })
    );
}

#[test]
fn missing_copy_and_eq() {
    let mut env = SimHost::new();
    let v = native2elisp::string(&mut env, b"x").unwrap();
    let nil = hlapi::nil(&mut env).unwrap();
    env.remove_entry(Prim::CopyStringContents);
    env.remove_entry(Prim::Eq);
    assert_eq!(
        elisp2native::string(&mut env, v),
        Err(ConvErr::CoreFnMissing("copy_string_contents".to_string()))
    );
    assert_eq!(eq(&mut env, v, nil), Err(ConvErr::CoreFnMissing("eq".to_string())));
    assert_eq!(
        elisp2native::list(&mut env, nil),
        Err(ConvErr::CoreFnMissing("eq".to_string()))
    );
}

#[test]
fn null_arguments() {
    let mut env = SimHost::new();
    assert_eq!(
        elisp2native::integer(&mut env, None, 0),
        Err(ConvErr::Nullptr("args".to_string()))
    );
    assert_eq!(
        elisp2native::pointer(&mut env, None, 0),
        Err(ConvErr::Nullptr("args".to_string()))
    );
    assert_eq!(
        elisp2native::int_value(&mut env, Value::null()),
        Err(ConvErr::Nullptr("val".to_string()))
    );
    assert_eq!(
        elisp2native::integer(&mut env, Some(&[Value::null()]), 0),
        Err(ConvErr::Nullptr("val".to_string()))
    );
}

#[test]
fn integer_from_args() {
    let mut env = SimHost::new();
    let a = native2elisp::integer(&mut env, 5).unwrap();
    let b = native2elisp::integer(&mut env, -8).unwrap();
    let args = [a, b];
    assert_eq!(elisp2native::integer(&mut env, Some(&args), 1), Ok(-8));
    assert_eq!(elisp2native::integer(&mut env, Some(&args), 0), Ok(5));
}

#[test]
fn user_pointer_round_trip() {
    let mut env = SimHost::new();
    let v = native2elisp::user_ptr(&mut env, 3, 0xdead_beef).unwrap();
    let args = [v];
    assert_eq!(elisp2native::pointer(&mut env, Some(&args), 0), Ok(0xdead_beef));
    env.remove_entry(Prim::GetUserPtr);
    assert_eq!(
        elisp2native::pointer(&mut env, Some(&args), 0),
        Err(ConvErr::CoreFnMissing("get_user_ptr".to_string()))
    );
}

#[test]
fn fetch_failures() {
    let mut env = SimHost::new();
    let v = native2elisp::integer(&mut env, 1).unwrap();
    assert_eq!(elisp2native::string_bytes(&mut env, v), Err(ConvErr::FailedToFetchLength));
}

#[test]
fn invalid_utf8_text() {
    let mut env = SimHost::new();
    let v = native2elisp::string(&mut env, &[104u8, 105, 0xff, 0xfe]).unwrap();
    assert_eq!(
        elisp2native::string(&mut env, v),
        Err(ConvErr::FromUtf8Error { valid_up_to: 2, bytes: vec![104u8, 105, 0xff, 0xfe] })
    );
}

#[test]
fn nil_and_eq() {
    let mut env = SimHost::new();
    let nil = hlapi::nil(&mut env).unwrap();
    let sym_nil = native2elisp::symbol(&mut env, "nil").unwrap();
    let t = native2elisp::symbol(&mut env, "t").unwrap();
    let t2 = native2elisp::symbol(&mut env, "t").unwrap();
    assert_eq!(is_nil(&mut env, sym_nil), Ok(true));
    assert_eq!(is_nil(&mut env, t), Ok(false));
    assert_eq!(eq(&mut env, t, t2), Ok(true));
    assert_eq!(eq(&mut env, nil, t), Ok(false));
    let empty = native2elisp::list(&mut env, &[]);
    assert_eq!(is_nil(&mut env, empty), Ok(true));
}

#[test]
fn message_is_shown() {
    let mut env = SimHost::new();
    let r = message(&mut env, "hello there").unwrap();
    assert_eq!(env.shown_messages().len(), 1);
    assert_eq!(text_of(&mut env, r), "hello there");
    assert!(matches!(message(&mut env, "a\0b"), Err(ConvErr::FoundInteriorNulByte { pos: 1, .. })));
}

#[test]
fn register_arity_range() {
    let mut env = SimHost::new();
    let r = register(&mut env, "my-fn", 7, 1, 3, "Does a thing.").unwrap();
    let t = native2elisp::symbol(&mut env, "t").unwrap();
    assert_eq!(eq(&mut env, r, t), Ok(true));
    assert_eq!(env.function_arity(b"my-fn"), Some((1, 3)));
    assert_eq!(env.function_arity(b"other"), None);
    let msgs = env.shown_messages().clone();
    assert_eq!(msgs.len(), 1);
    assert_eq!(text_of(&mut env, msgs[0]), "Registered function my-fn");
}

#[test]
fn register_rejects_bad_doc_and_missing_entry() {
    let mut env = SimHost::new();
    assert!(matches!(
        register(&mut env, "f", 1, 0, 0, "bad\0doc"),
        Err(ConvErr::FoundInteriorNulByte { pos: 3, .. })
    ));
    env.remove_entry(Prim::MakeFunction);
    assert_eq!(
        register(&mut env, "f", 1, 0, 0, "doc"),
        Err(ConvErr::CoreFnMissing("make_function".to_string()))
    );
}

#[test]
fn trampoline_passes_values_through() {
    let mut env = SimHost::new();
    let v = native2elisp::integer(&mut env, 11).unwrap();
    assert_eq!(subr_return(&mut env, "f", Ok(v)), Ok(v));
}

#[test]
fn trampoline_turns_errors_into_text() {
    let mut env = SimHost::new();
    let out = subr_return(&mut env, "[frob]", Err(ConvErr::FailedToCopy)).unwrap();
    assert_eq!(text_of(&mut env, out), "[[frob]] ConvErr::FailedToCopy");
    let err = ConvErr::CoreFnMissing("eq".to_string());
    let out = subr_return(&mut env, "g", Err(err)).unwrap();
    let text = text_of(&mut env, out);
    assert_eq!(text, "[g] ConvErr::CoreFnMissing(\"eq\")");
    assert!(text.contains("g") && text.contains("CoreFnMissing"));
    let out = subr_return(&mut env, "h", Err(ConvErr::Other("a\0b".to_string()))).unwrap();
    assert_eq!(text_of(&mut env, out), "[h] ConvErr::Other(\"a\\0b\")");
}

#[test]
fn debug_text_of_each_shape() {
    let cases: Vec<ConvErr> = vec![
        ConvErr::CoreFnMissing("eq".to_string()),
        ConvErr::Nullptr("a\"b\0".to_string()),
        ConvErr::FailedToFetchLength,
        ConvErr::InvalidArgCount(1234),
        ConvErr::WrongEmacsValueType { expected: "list".to_string(), got: Some(Value { handle: 7 }) },
        ConvErr::WrongEmacsValueType { expected: "list".to_string(), got: None },
        ConvErr::IoErr { kind: std::io::ErrorKind::NotFound, msg: "gone".to_string() },
        ConvErr::RegexTooLarge(10),
        ConvErr::FromUtf8Error { valid_up_to: 2, bytes: vec![104, 105, 255] },
        ConvErr::FromUtf8Error { valid_up_to: 0, bytes: vec![] },
        ConvErr::Utf8Error { valid_up_to: 0 },
        ConvErr::ParseIntError("x".parse::<i64>().unwrap_err()),
        ConvErr::FoundInteriorNulByte { pos: 0, bytes: Some(vec![0]) },
        ConvErr::FoundInteriorNulByte { pos: 3, bytes: None },
        ConvErr::NotNulTerminated,
    ];
    for e in cases {
        let bytes = e.debug_bytes();
        assert_eq!(String::from_utf8(bytes.clone()).unwrap(), format!("{:?}", e));
        assert!(!bytes.contains(&0));
    }
}

#[test]
fn utf8_error_maps() {
    let bad = vec![97u8, 0xc3];
    let e = std::str::from_utf8(&bad).unwrap_err();
    assert_eq!(ConvErr::from_utf8_error(e), ConvErr::Utf8Error { valid_up_to: 1 });
}

#[test]
fn diagnostic_format() {
    let d = diagnostic_text("t", &ConvErr::InvalidArgCount(3));
    assert_eq!(String::from_utf8(d).unwrap(), "[t] ConvErr::InvalidArgCount(3)");
}

#[test]
fn regex_errors_map() {
    let e = regex::Regex::new("(").unwrap_err();
    assert!(matches!(ConvErr::from_regex_error(e), ConvErr::RegexSyntaxErr(_)));
    let big = regex::RegexBuilder::new("a{1000}{1000}").size_limit(10).build().unwrap_err();
    assert_eq!(ConvErr::from_regex_error(big), ConvErr::RegexTooLarge(10));
}

#[test]
fn io_and_parse_errors_map() {
    let e = std::io::Error::new(std::io::ErrorKind::NotFound, "gone");
    assert_eq!(
        ConvErr::from_io_error(e),
        ConvErr::IoErr { kind: std::io::ErrorKind::NotFound, msg: "gone".to_string() }
    );
    let p = "x1".parse::<i64>().unwrap_err();
    assert_eq!(ConvErr::from_parse_int_error(p.clone()), ConvErr::ParseIntError(p));
}
