use redact::Secret;

#[test]
fn add_forwards_and_stays_secret() {
    let sum: Secret<i32> = Secret::new(3) + Secret::new(4);
    assert_eq!(*sum.expose_secret(), 7);
}

#[test]
fn binary_operators_forward() {
    assert_eq!(*(Secret::new(10i64) - Secret::new(3i64)).expose_secret(), 7);
    assert_eq!(*(Secret::new(6u32) * Secret::new(7u32)).expose_secret(), 42);
    assert_eq!(*(Secret::new(17u32) / Secret::new(5u32)).expose_secret(), 3);
    assert_eq!(*(Secret::new(17u32) % Secret::new(5u32)).expose_secret(), 2);
    assert_eq!(*(Secret::new(0b1100u8) & Secret::new(0b1010u8)).expose_secret(), 0b1000);
    assert_eq!(*(Secret::new(0b1100u8) | Secret::new(0b1010u8)).expose_secret(), 0b1110);
    assert_eq!(*(Secret::new(0b1100u8) ^ Secret::new(0b1010u8)).expose_secret(), 0b0110);
    assert_eq!(*(Secret::new(1u16) << Secret::new(4u32)).expose_secret(), 16);
    assert_eq!(*(Secret::new(256u16) >> Secret::new(3u32)).expose_secret(), 32);
}

#[test]
fn unary_operators_forward() {
    assert_eq!(*(-Secret::new(5i32)).expose_secret(), -5);
    assert_eq!(*(!Secret::new(0u8)).expose_secret(), 255u8);
    assert_eq!(*(!Secret::new(true)).expose_secret(), false);
}

#[test]
fn assigning_operators_forward() {
    let mut a = Secret::new(10i32);
    a.add_assign(Secret::new(5));
    assert_eq!(*a.expose_secret(), 15);
    a.sub_assign(Secret::new(3));
    assert_eq!(*a.expose_secret(), 12);
    a.mul_assign(Secret::new(2));
    assert_eq!(*a.expose_secret(), 24);
    a.div_assign(Secret::new(5));
    assert_eq!(*a.expose_secret(), 4);
    a.rem_assign(Secret::new(3));
    assert_eq!(*a.expose_secret(), 1);
    a.shl_assign(Secret::new(3u32));
    assert_eq!(*a.expose_secret(), 8);
    a.shr_assign(Secret::new(1u32));
    assert_eq!(*a.expose_secret(), 4);
    a |= Secret::new(3);
    assert_eq!(*a.expose_secret(), 7);
    a &= Secret::new(5);
    assert_eq!(*a.expose_secret(), 5);
    a ^= Secret::new(1);
    assert_eq!(*a.expose_secret(), 4);
}

#[test]
fn string_append_in_place() {
    let mut s = Secret::new(String::from("pass"));
    s.add_assign(Secret::new("word"));
    assert_eq!(s.expose_secret(), "password");
}

#[test]
fn string_concatenation_forwards() {
    let s = Secret::new(String::from("pass")) + Secret::new("word");
    assert_eq!(s.expose_secret(), "password");
}
