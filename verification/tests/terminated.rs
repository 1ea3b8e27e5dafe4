use terminated::terminate;
use terminated::NulError;
use terminated::NulTerminatedStr;

#[test]
fn test() {
    let t = terminate("foo").unwrap();
    let s = NulTerminatedStr::from_str_with_nul(&t).unwrap();
    assert_eq!(s.as_str(), "foo");
    assert_eq!(s.as_str().len(), 3);
    assert_eq!(&s.as_str()[0..2], "fo");
    assert_eq!(s.as_str_with_nul(), "foo\0");
}

#[test]
fn test_err() {
    assert_eq!(
        NulTerminatedStr::from_str_with_nul("foo").unwrap_err(),
        NulError::NotNulTerminated
    );
    assert_eq!(
        NulTerminatedStr::from_str_with_nul("fo\0o").unwrap_err(),
        NulError::InteriorNul(2)
    );
    assert_eq!(
        NulTerminatedStr::from_str_with_nul("fo\0o\0").unwrap_err(),
        NulError::InteriorNul(2)
    );
}

#[test]
fn wrap_success_scenario() {
    let v = NulTerminatedStr::from_str_with_nul("foo\0").unwrap();
    assert_eq!(v.as_str(), "foo");
    assert_eq!(v.as_str().len(), 3);
    assert_eq!(v.as_str().find("oo"), Some(1));
    assert_eq!(v.as_str_with_nul().len(), 4);
    assert_eq!(v.as_str_with_nul().as_bytes(), "foo\0".as_bytes());
}

#[test]
fn empty_not_terminated() {
    assert_eq!(
        NulTerminatedStr::from_str_with_nul("").unwrap_err(),
        NulError::NotNulTerminated
    );
}

#[test]
fn lone_nul_terminated() {
    let v = NulTerminatedStr::from_str_with_nul("\0").unwrap();
    assert_eq!(v.as_str(), "");
    assert_eq!(v.as_str_with_nul(), "\0");
}

#[test]
fn leading_nul_is_interior() {
    assert_eq!(
        NulTerminatedStr::from_str_with_nul("\0\0").unwrap_err(),
        NulError::InteriorNul(0)
    );
}

#[test]
fn wrap_unchecked() {
    let v = NulTerminatedStr::from_str_with_nul_unchecked("ok\0");
    assert_eq!(v.as_str(), "ok");
    assert_eq!(v.as_str_with_nul(), "ok\0");
}

#[test]
fn round_trip() {
    let v = NulTerminatedStr::from_str_with_nul("foo\0").unwrap();
    let again = terminate(v.as_str()).unwrap();
    let w = NulTerminatedStr::from_str_with_nul(&again).unwrap();
    assert_eq!(w.as_str_with_nul(), v.as_str_with_nul());
}

#[test]
fn literal_helper() {
    let t = terminate("abc").unwrap();
    assert_eq!(t.as_bytes(), [97u8, 98, 99, 0]);
    let v = NulTerminatedStr::from_str_with_nul(&t).unwrap();
    assert_eq!(v.as_str_with_nul().len(), 4);
    assert_eq!(v.as_str(), "abc");
    assert_eq!(v.as_str().len(), 3);
}

#[test]
fn literal_embedded_nul_rejected() {
    assert_eq!(terminate("a\0b").unwrap_err(), NulError::InteriorNul(1));
}

#[test]
fn literal_trailing_nul_rejected() {
    assert_eq!(terminate("foo\0").unwrap_err(), NulError::InteriorNul(3));
}

#[test]
fn terminate_empty() {
    let t = terminate("").unwrap();
    assert_eq!(t, "\0");
    let v = NulTerminatedStr::from_str_with_nul(&t).unwrap();
    assert_eq!(v.as_str(), "");
    assert_eq!(v.as_str_with_nul().len(), 1);
}

#[test]
fn multibyte_text() {
    let plain = "h\u{e9}llo";
    let t = terminate(plain).unwrap();
    let v = NulTerminatedStr::from_str_with_nul(&t).unwrap();
    assert_eq!(v.as_str(), plain);
    assert_eq!(v.as_str_with_nul().len(), plain.len() + 1);
}

#[test]
fn error_clone_eq() {
    let e = NulError::InteriorNul(2);
    assert_eq!(e.clone(), NulError::InteriorNul(2));
    assert_ne!(e, NulError::NotNulTerminated);
    assert_ne!(NulError::InteriorNul(2), NulError::InteriorNul(4));
}
