use std::hash::{DefaultHasher, Hash, Hasher};
use std::mem::size_of;
use std::rc::Rc;
use std::sync::Arc;

use our_string::comrades::{ArcBytes, RcBytes};
use our_string::{OurBytes, OurString};

fn hash<T: Hash>(t: &T) -> u64 {
    let mut s = DefaultHasher::new();
    t.hash(&mut s);
    s.finish()
}

fn is_inline<T: our_string::Comrade, const N: usize>(v: &OurBytes<T, N>) -> bool {
    let l = v.len();
    let s = v.as_slice().as_ptr().addr();
    let v = std::ptr::from_ref(v).addr();
    s >= v && s + l <= v + size_of::<OurBytes<T, N>>()
}

#[test]
fn inline_exactly_up_to_capacity() {
    for n in 0..20usize {
        let data: Vec<u8> = (0..n as u8).collect();
        let a = OurBytes::<Rc<Vec<u8>>, 7>::from(data.as_slice());
        assert_eq!(is_inline(&a), n <= 7);
        assert_eq!(a.as_slice(), data.as_slice());
    }
}

#[test]
fn inline_length_stops_below_255() {
    let a = OurBytes::<Rc<Vec<u8>>, 300>::from([9u8; 254].as_slice());
    assert!(is_inline(&a));
    assert_eq!(a.as_slice(), [9u8; 254].as_slice());
    let b = OurBytes::<Rc<Vec<u8>>, 300>::from([9u8; 255].as_slice());
    assert!(!is_inline(&b));
    assert_eq!(b.as_slice(), [9u8; 255].as_slice());
    let c = OurBytes::<Rc<Vec<u8>>, 254>::from([3u8; 254].as_slice());
    assert!(is_inline(&c));
}

#[test]
fn zero_capacity_is_outline_unless_empty() {
    assert!(is_inline(&OurBytes::<Rc<[u8]>, 0>::from([].as_slice())));
    assert!(!is_inline(&OurBytes::<Rc<[u8]>, 0>::from([1u8].as_slice())));
}

#[test]
fn clone_shares_outline_allocation() {
    let a = OurBytes::<Arc<[u8]>, 2>::from([1u8, 2, 3].as_slice());
    let b = a.clone();
    assert!(a == b);
    assert_eq!(a.as_slice().as_ptr(), b.as_slice().as_ptr());
    let c = OurBytes::<Arc<[u8]>, 4>::from([1u8, 2, 3].as_slice());
    let d = c.clone();
    assert!(c == d);
    assert_ne!(c.as_slice().as_ptr(), d.as_slice().as_ptr());
}

#[test]
fn equal_across_representations() {
    let a = OurBytes::<Rc<Vec<u8>>, 10>::from([1u8, 2, 3].as_slice());
    let b = OurBytes::<Arc<[u8]>, 2>::from(Arc::<[u8]>::from([1u8, 2, 3].as_slice()));
    assert!(is_inline(&a));
    assert!(!is_inline(&b));
    assert!(a == b);
    assert!(b == a);
    assert_eq!(a.partial_cmp(&b), Some(std::cmp::Ordering::Equal));
    assert_eq!(hash(&a), hash(&b));
    assert_eq!(hash(&a), hash(&[1u8, 2, 3].as_slice()));
}

#[test]
fn convert_spills_exactly_when_too_small() {
    let a = OurBytes::<Rc<[u8]>, 8>::from([5u8, 1, 6].as_slice());
    let b: OurBytes<Rc<[u8]>, 3> = a.clone().convert();
    assert!(is_inline(&b));
    let c: OurBytes<Rc<[u8]>, 2> = a.convert();
    assert!(!is_inline(&c));
    assert_eq!(c.as_slice(), [5u8, 1, 6].as_slice());
    let d: OurBytes<Rc<[u8]>, 100> = c.clone().convert();
    assert!(!is_inline(&d));
    assert_eq!(c.as_slice().as_ptr(), d.as_slice().as_ptr());
}

#[test]
fn ordering_matches_slices() {
    let pairs: [(&[u8], &[u8]); 6] = [
        (&[], &[]),
        (&[], &[0]),
        (&[1, 2], &[1, 2, 0]),
        (&[1, 3], &[1, 2, 9]),
        (&[255], &[0, 0, 0, 0, 0, 0]),
        (&[4, 4, 4], &[4, 4, 4]),
    ];
    for (x, y) in pairs {
        let a = OurBytes::<Rc<Vec<u8>>, 2>::from(x);
        let b = OurBytes::<Arc<[u8]>, 5>::from(y);
        assert_eq!(a.partial_cmp(&b), x.partial_cmp(y));
        assert_eq!(b.partial_cmp(&a), y.partial_cmp(x));
        assert_eq!(a.partial_cmp(&y), x.partial_cmp(y));
        assert_eq!(a.cmp(&OurBytes::<Rc<Vec<u8>>, 2>::from(y)), x.cmp(y));
        assert_eq!(a == b, x == y);
    }
}

#[test]
fn string_ordering_matches_str() {
    let pairs = [("", ""), ("a", "ab"), ("b", "ab"), ("héllo", "hello"), ("zz", "zz")];
    for (x, y) in pairs {
        let a = OurString::<Rc<Vec<u8>>, 2>::from(x);
        let b = OurString::<Rc<[u8]>, 8>::from(y);
        assert_eq!(a.partial_cmp(&b), x.partial_cmp(y));
        assert_eq!(a.cmp(&OurString::<Rc<Vec<u8>>, 2>::from(y)), x.cmp(y));
        assert_eq!(a == b, x == y);
        assert_eq!(hash(&a), hash(&x));
    }
}

#[test]
fn invalid_utf8_keeps_source_usable() {
    let x = OurBytes::<Rc<[u8]>, 8>::from([0xFFu8].as_slice());
    let err = OurString::from_utf8(x.clone()).unwrap_err();
    assert_eq!(err.valid_up_to(), 0);
    assert!(x == [0xFFu8].as_slice());
    let y = OurBytes::<Rc<[u8]>, 8>::from([104u8, 105, 0xC0, 0x80].as_slice());
    assert_eq!(OurString::from_utf8(y).unwrap_err().valid_up_to(), 2);
}

#[test]
fn utf8_round_trip() {
    for text in ["", "abc", "grüße", "日本語のテキストです"] {
        let bytes = OurBytes::<Arc<Vec<u8>>, 6>::from(text.as_bytes());
        let s = OurString::from_utf8(bytes.clone()).unwrap();
        assert_eq!(s.as_str(), text);
        let back = s.into_bytes();
        assert!(back == bytes);
        assert_eq!(back.as_slice().as_ptr() == bytes.as_slice().as_ptr(), text.len() > 6);
    }
}

#[test]
fn string_convert_keeps_content() {
    let a = OurString::<Rc<[u8]>, 16>::from("grüße");
    let b: OurString<Rc<[u8]>, 3> = a.clone().convert();
    assert_eq!(b.as_str(), "grüße");
    let c: OurString<Rc<[u8]>, 16> = b.convert();
    assert!(c == a);
}

#[test]
fn rc_bytes_count_returns_to_one() {
    let v = RcBytes::from(b"shared content".as_slice());
    assert_eq!(v.live_count(), 1);
    let mut clones = Vec::new();
    for k in 1..=5usize {
        clones.push(v.clone());
        assert_eq!(v.live_count(), 1 + k);
    }
    for k in (0..5usize).rev() {
        clones.pop();
        assert_eq!(v.live_count(), 1 + k);
    }
    assert_eq!(&*v, b"shared content".as_slice());
}

#[test]
fn arc_bytes_count_returns_to_one() {
    let v = ArcBytes::from(b"abc".as_slice());
    let w = v.clone();
    assert_eq!(v.live_count(), 2);
    assert_eq!(v.as_ptr(), w.as_ptr());
    drop(w);
    assert_eq!(v.live_count(), 1);
    assert!(v == b"abc".as_slice());
    assert!(ArcBytes::default().is_empty());
}

#[test]
fn optional_containers_cost_nothing() {
    assert_eq!(size_of::<Option<RcBytes>>(), size_of::<RcBytes>());
    assert_eq!(size_of::<Option<OurBytes<Rc<Vec<u8>>, 0>>>(), size_of::<OurBytes<Rc<Vec<u8>>, 0>>());
    assert_eq!(size_of::<Option<OurBytes<RcBytes, 22>>>(), size_of::<OurBytes<RcBytes, 22>>());
    assert_eq!(size_of::<Option<OurString<ArcBytes, 6>>>(), size_of::<OurString<ArcBytes, 6>>());
}

#[test]
fn compact_handles_in_containers() {
    let a = OurBytes::<RcBytes, 4>::from([1u8, 2, 3, 4, 5].as_slice());
    assert!(!is_inline(&a));
    assert_eq!(a.as_slice(), [1u8, 2, 3, 4, 5].as_slice());
    assert_eq!(size_of::<OurBytes<RcBytes, 15>>(), 2 * size_of::<usize>());
}

#[test]
fn compares_with_shared_slices() {
    let a = OurBytes::<Rc<Vec<u8>>, 4>::from([1u8, 2, 3].as_slice());
    let boxed: Box<[u8]> = vec![1u8, 2, 3].into_boxed_slice();
    assert!(a == boxed);
    assert!(a == Rc::<[u8]>::from([1u8, 2, 3].as_slice()));
    assert!(a == Arc::<[u8]>::from([1u8, 2, 3].as_slice()));
    assert!(a == RcBytes::from([1u8, 2, 3].as_slice()));
    assert!(a != ArcBytes::from([1u8, 2].as_slice()));
    assert!(a > ArcBytes::from([1u8, 2].as_slice()));
    assert!(a < Rc::<[u8]>::from([1u8, 2, 4].as_slice()));
}

#[test]
fn compares_with_shared_strs() {
    let a = OurString::<Rc<Vec<u8>>, 4>::from("help me");
    let boxed: Box<str> = "help me".into();
    assert!(a == boxed);
    assert!(a == Rc::<str>::from("help me"));
    assert!(a < Arc::<str>::from("please"));
    assert!(a > Rc::<str>::from("help"));
}
