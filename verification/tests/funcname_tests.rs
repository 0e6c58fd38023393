use typedump::funcname::FuncName;

#[test]
fn test_funcname_sps() {
    if let FuncName::Unknown((name, sps)) = FuncName::get_unknown("_foo@123".to_string()) {
        assert_eq!(name, "foo");
        assert_eq!(sps, 123);
    }

    if let FuncName::Unknown((name, sps)) = FuncName::get_unknown("@foo@123".to_string()) {
        assert_eq!(name, "foo");
        assert_eq!(sps, 115);
    }

    if let FuncName::Unknown((name, sps)) = FuncName::get_unknown("@foo@3".to_string()) {
        assert_eq!(name, "foo");
        assert_eq!(sps, 0);
    }
}

#[test]
fn test_funcname() {
    if let FuncName::Unknown((name, sps)) = FuncName::get_unknown("_foo@123()".to_string()) {
        assert_eq!(name, "_foo@123()");
        assert_eq!(sps, 0);
    }

    if let FuncName::Unknown((name, sps)) = FuncName::get_unknown("_foo@".to_string()) {
        assert_eq!(name, "foo@");
        assert_eq!(sps, 0);
    }

    if let FuncName::Unknown((name, sps)) = FuncName::get_unknown("_foo".to_string()) {
        assert_eq!(name, "foo");
        assert_eq!(sps, 0);
    }

    if let FuncName::Unknown((name, sps)) = FuncName::get_unknown("_foo@bar".to_string()) {
        assert_eq!(name, "foo@bar");
        assert_eq!(sps, 0);
    }

    if let FuncName::Unknown((name, sps)) = FuncName::get_unknown("foobar".to_string()) {
        assert_eq!(name, "foobar");
        assert_eq!(sps, 0);
    }

    if let FuncName::Unknown((name, sps)) = FuncName::get_unknown("@foobar".to_string()) {
        assert_eq!(name, "@foobar");
        assert_eq!(sps, 0);
    }
}

fn unknown_parts(f: FuncName) -> (String, u32) {
    match f {
        FuncName::Unknown((name, sps)) => (name, sps),
        FuncName::Undecorated(s) => panic!("expected Unknown, got Undecorated({})", s),
    }
}

#[test]
fn decoration_empty_name_is_unknown_zero() {
    let (name, sps) = unknown_parts(FuncName::get_unknown(String::new()));
    assert_eq!(name, "");
    assert_eq!(sps, 0);
}

#[test]
fn decoration_colon_in_remainder_is_not_decoration() {
    let (name, sps) = unknown_parts(FuncName::get_unknown("_ns::foo@4".to_string()));
    assert_eq!(name, "_ns::foo@4");
    assert_eq!(sps, 0);
}

#[test]
fn decoration_plus_sign_count_parses_like_rust() {
    // str::parse::<u32> accepts an optional leading plus sign.
    let (name, sps) = unknown_parts(FuncName::get_unknown("_foo@+123".to_string()));
    assert_eq!(name, "foo");
    assert_eq!(sps, 123);
}

#[test]
fn decoration_overflowing_count_is_not_decoration() {
    let (name, sps) = unknown_parts(FuncName::get_unknown("_foo@4294967296".to_string()));
    assert_eq!(name, "foo@4294967296");
    assert_eq!(sps, 0);
}

#[test]
fn decoration_fastcall_exact_register_bytes() {
    let (name, sps) = unknown_parts(FuncName::get_unknown("@foo@8".to_string()));
    assert_eq!(name, "foo");
    assert_eq!(sps, 0);
}

#[test]
fn decoration_last_at_sign_splits() {
    let (name, sps) = unknown_parts(FuncName::get_unknown("_f@o@16".to_string()));
    assert_eq!(name, "f@o");
    assert_eq!(sps, 16);
}
