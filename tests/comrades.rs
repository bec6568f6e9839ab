use our_string::comrades::{RcBytes, ArcBytes};

struct Check<T: ?Sized>(T);

trait SendProbe<A> {
    fn probe() {}
}
impl<T: ?Sized> SendProbe<()> for Check<T> {}
impl<T: ?Sized + Send> SendProbe<u8> for Check<T> {}

trait SyncProbe<A> {
    fn probe() {}
}
impl<T: ?Sized> SyncProbe<()> for Check<T> {}
impl<T: ?Sized + Sync> SyncProbe<u8> for Check<T> {}

fn send_sync<T: Send + Sync>() {}

fn buffer_traits<T>()
where
    T: core::fmt::Debug + Default + Clone + PartialEq + Eq + PartialOrd + Ord + core::ops::Deref<Target = [u8]> + AsRef<[u8]> + core::borrow::Borrow<[u8]> + core::hash::Hash,
{
}

#[test]
fn comrades_test_traits() {
    send_sync::<std::sync::Arc<[u8]>>();
    // Each call resolves only when the type lacks the trait.
    <Check<std::rc::Rc<[u8]>> as SendProbe<_>>::probe();
    <Check<std::rc::Rc<[u8]>> as SyncProbe<_>>::probe();

    send_sync::<ArcBytes>();
    buffer_traits::<ArcBytes>();
    buffer_traits::<RcBytes>();
    <Check<RcBytes> as SendProbe<_>>::probe();
    <Check<RcBytes> as SyncProbe<_>>::probe();
}

#[test]
fn test_rc_bytes() {
    assert_eq!(size_of::<RcBytes>(), size_of::<usize>());
    assert_eq!(size_of::<Option<RcBytes>>(), size_of::<usize>());

    for value in ["".as_bytes(), b"h", b"he", b"hel", b"help", b"help me obi-wan kenobi, you're my only hope"] {
        let v = RcBytes::from(value);
        assert_eq!(v, value);
        assert_eq!(&*v, value);
        assert_ne!(v.as_ptr(), value.as_ptr());
        let vv = v.clone();
        assert_eq!(vv, value);
        assert_eq!(&*vv, value);
        assert_ne!(v.as_ptr(), value.as_ptr());
        assert_eq!(v.as_ptr(), vv.as_ptr());
    }

    let empty = RcBytes::default();
    assert_eq!(empty.is_empty(), true);
    assert_eq!(empty, &[] as &[u8]);
}

#[test]
fn test_arc_bytes() {
    assert_eq!(size_of::<ArcBytes>(), size_of::<usize>());
    assert_eq!(size_of::<Option<ArcBytes>>(), size_of::<usize>());
}
