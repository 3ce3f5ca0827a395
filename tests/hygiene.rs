use redact::Secret;
use zeroize::{TryZeroize, Zeroize};

#[test]
fn clear_zeroes_every_byte_and_keeps_length() {
    let mut s = Secret::new([1u8, 2, 3, 255]);
    s.clear();
    assert_eq!(*s.expose_secret(), [0u8, 0, 0, 0]);
}

#[test]
fn zeroize_forwards_to_carried_array() {
    let mut s = Secret::new([9u8, 8, 7]);
    s.zeroize();
    assert_eq!(*s.expose_secret(), [0u8, 0, 0]);
}

#[test]
fn zeroize_forwards_to_carried_integer() {
    let mut s = Secret::new(0xdead_beef_u64);
    s.zeroize();
    assert_eq!(*s.expose_secret(), 0u64);
}

#[test]
fn zeroize_of_vec_follows_the_vec_rule() {
    let mut s = Secret::new(vec![1u8, 2, 3]);
    s.zeroize();
    assert!(s.expose_secret().is_empty());
}

struct Shared {
    value: u8,
    last_holder: bool,
}

impl TryZeroize for Shared {
    fn try_zeroize(&mut self) -> bool {
        if self.last_holder {
            self.value = 0;
        }
        self.last_holder
    }
}

#[test]
fn try_zeroize_reports_success() {
    let mut s = Secret::new(Shared { value: 7, last_holder: true });
    assert!(s.try_zeroize());
    assert_eq!(s.expose_secret().value, 0);
}

#[test]
fn try_zeroize_reports_failure() {
    let mut s = Secret::new(Shared { value: 7, last_holder: false });
    assert!(!s.try_zeroize());
    assert_eq!(s.expose_secret().value, 7);
}

#[test]
fn zeroize_on_drop_is_forwarded() {
    fn clears_on_drop<Z: zeroize::ZeroizeOnDrop>(_: &Z) -> bool {
        true
    }
    assert!(clears_on_drop(&Secret::new(())));
}
