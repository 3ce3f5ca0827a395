use redact::Secret;

#[test]
fn expose_returns_the_wrapped_value() {
    let s = Secret::new(String::from("hunter2"));
    assert_eq!(s.expose_secret(), "hunter2");
    let n = Secret::new(42u64);
    assert_eq!(*n.expose_secret(), 42u64);
}

#[test]
fn from_converts_then_wraps() {
    let s: Secret<u64> = Secret::from(7u8);
    assert_eq!(*s.expose_secret(), 7u64);
    let t: Secret<String> = Secret::from("token");
    assert_eq!(t.expose_secret(), "token");
}

#[test]
fn from_trait_wraps() {
    let s: Secret<i32> = From::from(-5i32);
    assert_eq!(*s.expose_secret(), -5);
    let t: Secret<&str> = "abc".into();
    assert_eq!(*t.expose_secret(), "abc");
}

#[test]
fn try_from_success_wraps_value() {
    let r: Result<Secret<u8>, _> = Secret::<u8>::try_from(200u32);
    match r {
        Ok(s) => assert_eq!(*s.expose_secret(), 200u8),
        Err(_) => panic!("200 fits in u8"),
    }
}

#[test]
fn try_from_failure_wraps_error() {
    let r = Secret::<u8>::try_from(300u32);
    match r {
        Ok(_) => panic!("300 does not fit in u8"),
        Err(e) => {
            let _: &std::num::TryFromIntError = e.expose_secret();
        }
    }
}

#[test]
fn equality_and_order_follow_carried_value() {
    assert!(Secret::new(1u8) == Secret::new(1u8));
    assert!(Secret::new(1u8) != Secret::new(2u8));
    assert!(Secret::new(1u8) < Secret::new(2u8));
    let c = Secret::new(9u16);
    let d = c;
    assert!(c == d);
    let e: Secret<u32> = Default::default();
    assert_eq!(*e.expose_secret(), 0u32);
}

#[test]
fn option_round_trip_is_identity() {
    let o: Option<Secret<u8>> = Some(Secret::new(5u8));
    let s: Secret<Option<u8>> = o.into();
    assert_eq!(*s.expose_secret(), Some(5u8));
    let back = s.transpose();
    assert!(back == Some(Secret::new(5u8)));
    let again: Secret<Option<u8>> = back.into();
    assert!(again == Secret::new(Some(5u8)));

    let none: Option<Secret<u8>> = None;
    let s: Secret<Option<u8>> = none.into();
    assert_eq!(*s.expose_secret(), None);
    assert!(s.transpose().is_none());
}

#[test]
fn result_conversions_gather_the_marker() {
    let a: Result<Secret<u8>, String> = Ok(Secret::new(1u8));
    let sa: Secret<Result<u8, String>> = a.into();
    assert_eq!(*sa.expose_secret(), Ok(1u8));

    let b: Result<u8, Secret<String>> = Err(Secret::new(String::from("bad")));
    let sb: Secret<Result<u8, String>> = b.into();
    assert_eq!(*sb.expose_secret(), Err(String::from("bad")));

    let c: Result<Secret<u8>, Secret<String>> = Err(Secret::new(String::from("e")));
    let sc: Secret<Result<u8, String>> = c.into();
    assert_eq!(*sc.expose_secret(), Err(String::from("e")));

    let d: Result<Secret<u8>, Secret<String>> = Ok(Secret::new(3u8));
    let sd: Secret<Result<u8, String>> = d.into();
    match sd.transpose() {
        Ok(s) => assert_eq!(*s.expose_secret(), 3u8),
        Err(_) => panic!("was a success"),
    }
}

#[test]
fn result_round_trip_is_identity() {
    let s: Secret<Result<u8, String>> = Secret::new(Err(String::from("x")));
    let spread = s.transpose();
    let back: Secret<Result<u8, String>> = spread.into();
    assert!(back == Secret::new(Err(String::from("x"))));
}

#[test]
fn collect_keeps_order_and_count() {
    let items = vec![Secret::new(3u8), Secret::new(1u8), Secret::new(2u8)];
    let all = Secret::<Vec<u8>>::from_iter(items);
    assert_eq!(*all.expose_secret(), vec![3u8, 1u8, 2u8]);
    let empty = Secret::<Vec<u8>>::from_iter(Vec::new());
    assert!(empty.expose_secret().is_empty());
}

