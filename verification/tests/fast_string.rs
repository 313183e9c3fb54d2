use std::collections::hash_map::DefaultHasher;
use std::hash::{Hash, Hasher};
use std::sync::Arc;

use fast_string::FastString;

fn hash_of<T: Hash + ?Sized>(value: &T) -> u64 {
    let mut hasher = DefaultHasher::new();
    value.hash(&mut hasher);
    hasher.finish()
}

#[test]
fn truncate() {
    let mut s = "123456".to_owned();
    s.truncate(3);

    let mut code: FastString = FastString::from_static("123456");
    code.truncate(3);
    assert_eq!(s, code.as_ref());

    let mut code: FastString = FastString::from_ownable("123456".to_owned());
    code.truncate(3);
    assert_eq!(s, code.as_ref());

    let arc_str: Arc<str> = "123456".into();
    let mut code: FastString = FastString::from_arc(arc_str);
    code.truncate(3);
    assert_eq!(s, code.as_ref());
}

#[test]
fn round_trip_ascii() {
    let code = FastString::from_static("abc");
    assert_eq!(code.try_static_ascii(), Some("abc".as_bytes()));
}

#[test]
fn round_trip_non_ascii() {
    let code = FastString::from_static("héllo");
    assert_eq!(code.try_static_ascii(), None);
    assert_eq!(code.as_str(), "héllo");
}

#[test]
fn classification() {
    assert!(FastString::is_ascii(b""));
    assert!(FastString::is_ascii(&[0x7f]));
    assert!(!FastString::is_ascii(&[0x80]));
    assert!(FastString::is_ascii(b"abc 123\t\n"));
    assert!(!FastString::is_ascii("héllo".as_bytes()));
    assert!(!FastString::is_ascii(&[0x61, 0x80, 0x62]));
}

#[test]
fn content_equality_across_variants() {
    let from_static = FastString::from_static("abc");
    let from_ownable = FastString::from_ownable("abc".to_owned());
    let arc: Arc<str> = "abc".into();
    let from_arc = FastString::from_arc(arc);
    assert!(from_static == from_ownable);
    assert!(from_ownable == from_arc);
    assert!(from_arc == from_static);
    assert!(from_static != FastString::from_static("abd"));
    assert!(from_static != FastString::from_static("ab"));
    assert_eq!(hash_of(&from_static), hash_of(&from_ownable));
    assert_eq!(hash_of(&from_ownable), hash_of(&from_arc));
    assert_eq!(hash_of(&from_static), hash_of("abc"));
}

#[test]
fn content_ordering_across_variants() {
    let abc = FastString::from_static("abc");
    let abd = FastString::from_ownable("abd".to_owned());
    let arc: Arc<str> = "abc".into();
    let abc_shared = FastString::from_arc(arc);
    assert!(abc < abd);
    assert!(abd > abc);
    assert_eq!(abc.partial_cmp(&abc_shared), Some(std::cmp::Ordering::Equal));
    assert!(abc <= abc_shared && abc >= abc_shared);
    assert!(FastString::from_static("ab") < abc);
    assert!(FastString::from_static("") < abc);
}

#[test]
fn truncate_keeps_ascii_tag() {
    let mut code = FastString::from_static("123456");
    code.truncate(3);
    assert_eq!(code.try_static_ascii(), Some("123".as_bytes()));
    code.truncate(0);
    assert_eq!(code.try_static_ascii(), Some("".as_bytes()));
}

#[test]
fn shared_truncation_is_independent() {
    let arc: Arc<str> = "123456".into();
    let whole = FastString::from_arc(arc.clone());
    let mut cut = whole.clone();
    cut.truncate(3);
    assert_eq!(cut.as_str(), "123");
    assert_eq!(whole.as_str(), "123456");
    assert_eq!(&*arc, "123456");
}

#[test]
fn default_is_empty_ascii() {
    let code = FastString::default();
    assert_eq!(code.as_bytes().len(), 0);
    assert_eq!(code.try_static_ascii(), Some("".as_bytes()));
}

#[test]
fn selection_is_by_variant_not_content() {
    assert!(FastString::from_static("abc").try_static_ascii().is_some());
    assert_eq!(FastString::Static("abc").try_static_ascii(), None);
    let arc: Arc<str> = "abc".into();
    assert_eq!(FastString::from_arc(arc).try_static_ascii(), None);
    assert_eq!(
        FastString::from_ownable("abc".to_owned()).try_static_ascii(),
        None
    );
}

#[test]
fn ensure_static_ascii_accepts_ascii() {
    let code = FastString::ensure_static_ascii("abc");
    assert_eq!(code.try_static_ascii(), Some("abc".as_bytes()));
    assert_eq!(code.as_str(), "abc");
}

#[test]
fn shared_variant_content() {
    let arc: Arc<str> = "xyß".into();
    let code = FastString::from_arc(arc);
    assert_eq!(code.as_str(), "xyß");
    assert_eq!(code.as_bytes(), "xyß".as_bytes());
}

#[test]
fn owned_string_conversion() {
    let code: FastString = "a string".to_owned().into();
    assert_eq!(code.as_str(), "a string");
    assert_eq!(code.try_static_ascii(), None);
    assert_eq!(code, FastString::from_static("a string"));
}

#[test]
fn ownable_content() {
    let code = FastString::from_ownable("héllo".to_owned());
    assert_eq!(code.as_str(), "héllo");
    assert_eq!(code.as_bytes(), "héllo".as_bytes());
}
