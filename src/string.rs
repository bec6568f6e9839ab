use vstd::prelude::*;
use vstd::utf8::{valid_utf8, encode_utf8, decode_utf8};
use core::cmp::Ordering;
use core::str::Utf8Error;

use vstd::std_specs::cmp::{PartialEqSpec, PartialOrdSpec};

use std::rc::Rc;
use std::sync::Arc;

use crate::Comrade;
use crate::bytes::{OurBytes, fits_inline};
use crate::order::{compare_bytes, equal_bytes, lex_cmp, lemma_lex_cmp_equal};

verus! {

broadcast use {vstd::utf8::encode_utf8_valid_utf8, vstd::utf8::encode_utf8_decode_utf8, vstd::utf8::decode_utf8_encode_utf8};

#[verifier::external_type_specification]
#[verifier::external_body]
pub struct ExUtf8Error(Utf8Error);

/// The offset reported by a UTF-8 validation error, as
/// `Utf8Error::valid_up_to` returns it.
pub uninterp spec fn utf8_valid_up_to(e: &Utf8Error) -> usize;

/// Relies on `Utf8Error::valid_up_to`: the offset the error was made with.
#[verifier::when_used_as_spec(utf8_valid_up_to)]
pub assume_specification[ Utf8Error::valid_up_to ](e: &Utf8Error) -> (r: usize)
    ensures
        r == utf8_valid_up_to(e),
;

/// Whether `k` is the length of the longest valid UTF-8 prefix of `bytes`.
pub open spec fn is_longest_valid_prefix(bytes: Seq<u8>, k: int) -> bool {
    &&& 0 <= k <= bytes.len()
    &&& valid_utf8(bytes.subrange(0, k))
    &&& forall|j: int| k < j <= bytes.len() ==> !valid_utf8(#[trigger] bytes.subrange(0, j))
}

/// Relies on `core::str::from_utf8`: `Ok` exactly when the bytes are valid
/// UTF-8, and then a string slice over those same bytes; otherwise an error
/// whose `valid_up_to` is the largest index such that the bytes before it
/// are valid UTF-8.
#[verifier::external_body]
fn str_from_utf8(v: &[u8]) -> (r: Result<&str, Utf8Error>)
    ensures
        r is Ok <==> valid_utf8(v@),
        r matches Ok(s) ==> encode_utf8(s@) == v@,
        r matches Err(e) ==> is_longest_valid_prefix(v@, utf8_valid_up_to(&e) as int),
{
    core::str::from_utf8(v)
}

/// Relies on `<str as Hash>::hash`: feeds the string to the hasher.
#[verifier::external_body]
fn hash_str<H: core::hash::Hasher>(s: &str, state: &mut H) {
    core::hash::Hash::hash(s, state)
}

/// Relies on `<str as Debug>::fmt`: writes the string quoted and escaped.
#[verifier::external_body]
fn debug_str(s: &str, f: &mut core::fmt::Formatter<'_>) -> core::fmt::Result {
    core::fmt::Debug::fmt(s, f)
}

/// A customizable immutable shared string.
///
/// Data is kept inline up to `N` bytes (at most 254), or stored in a shared
/// [`Comrade`] handle `T`. The bytes are always valid UTF-8.
pub struct OurString<T: Comrade, const N: usize>(OurBytes<T, N>);

impl<T: Comrade, const N: usize> View for OurString<T, N> {
    type V = Seq<char>;

    /// The characters of the string.
    closed spec fn view(&self) -> Seq<char> {
        decode_utf8(self.0@)
    }
}

impl<T: Comrade, const N: usize> OurString<T, N> {
    #[verifier::type_invariant]
    spec fn well_formed(self) -> bool {
        valid_utf8(self.0@)
    }

    /// The byte container underneath.
    pub closed spec fn bytes(&self) -> OurBytes<T, N> {
        self.0
    }

    /// Creates a new empty instance, with inline data.
    pub fn new() -> (r: Self)
        ensures
            r@ == Seq::<char>::empty(),
            r.bytes().is_inline(),
    {
        let b = OurBytes::new();
        assert(valid_utf8(b@));
        OurString(b)
    }

    /// Builds an instance holding a copy of `value`: inline when its UTF-8
    /// encoding fits, otherwise in a fresh handle `T`.
    pub fn from_str(value: &str) -> (r: Self)
        ensures
            r@ == value@,
            r.bytes()@ == encode_utf8(value@),
            r.bytes().is_inline() <==> fits_inline(encode_utf8(value@).len(), N as nat),
    {
        let b = OurBytes::from_slice(value.as_bytes());
        OurString(b)
    }

    /// Converts this instance into one with inline capacity `M`, as
    /// [`OurBytes::convert`] does.
    pub fn convert<const M: usize>(self) -> (r: OurString<T, M>)
        ensures
            r@ == self@,
            r.bytes()@ == self.bytes()@,
            self.bytes().is_inline() ==> fits_inline(self.bytes()@.len(), N as nat),
            !self.bytes().is_inline() ==> !r.bytes().is_inline() && r.bytes().handle()
                == self.bytes().handle(),
            self.bytes().is_inline() ==> (r.bytes().is_inline() <==> self.bytes()@.len() <= M),
    {
        proof {
            use_type_invariant(&self);
        }
        OurString(self.0.convert())
    }

    /// Gets a shared reference to the content.
    pub fn as_str(&self) -> (r: &str)
        ensures
            r@ == self@,
            encode_utf8(r@) == self.bytes()@,
    {
        proof {
            use_type_invariant(self);
        }
        match str_from_utf8(self.0.as_slice()) {
            Ok(s) => s,
            Err(_) => {
                proof {
                    assert(false);
                }
                ""
            },
        }
    }

    /// Extracts the underlying shared bytes container.
    pub fn into_bytes(self) -> (r: OurBytes<T, N>)
        ensures
            r == self.bytes(),
            r@ == encode_utf8(self@),
    {
        proof {
            use_type_invariant(&self);
        }
        self.0
    }

    /// Wraps a bytes container as a string when it holds valid UTF-8;
    /// the container is reused as it is.
    pub fn from_utf8(value: OurBytes<T, N>) -> (r: Result<Self, Utf8Error>)
        ensures
            r is Ok <==> valid_utf8(value@),
            r matches Ok(s) ==> s.bytes() == value && s@ == decode_utf8(value@),
            r matches Err(e) ==> is_longest_valid_prefix(value@, e.valid_up_to() as int),
    {
        match str_from_utf8(value.as_slice()) {
            Ok(_) => Ok(OurString(value)),
            Err(e) => Err(e),
        }
    }
}

/// Wrapping valid UTF-8 bytes as a string loses nothing: the string's
/// characters encode back to exactly those bytes, and unwrapping it gives
/// the same container.
pub proof fn lemma_utf8_round_trip<T: Comrade, const N: usize>(
    value: OurBytes<T, N>,
    s: OurString<T, N>,
)
    requires
        valid_utf8(value@),
        s.bytes() == value,
    ensures
        s@ == decode_utf8(value@),
        encode_utf8(s@) == value@,
{
}

/// Two strings are ordered as their UTF-8 bytes are, lexicographically as
/// `str` orders strings, whatever their capacities, handle types or
/// representations; the order agrees with `==`.
pub proof fn lemma_string_order_by_content<T: Comrade, const N: usize, U: Comrade, const M: usize>(
    a: OurString<T, N>,
    b: OurString<U, M>,
)
    ensures
        a.partial_cmp_spec(&b) == Some(lex_cmp(encode_utf8(a@), encode_utf8(b@))),
        a.partial_cmp_spec(&b) == Some(Ordering::Equal) <==> a.eq_spec(&b),
{
    lemma_lex_cmp_equal(encode_utf8(a@), encode_utf8(b@));
    assert(decode_utf8(encode_utf8(a@)) == a@);
    assert(decode_utf8(encode_utf8(b@)) == b@);
}

impl<T: Comrade, const N: usize> Clone for OurString<T, N> {
    /// Inline content is copied; a shared handle is shared again through
    /// [`Comrade::share`]. Verus sees a handle as its contents, so `handle()`
    /// states equal handles, not the same address.
    fn clone(&self) -> (r: Self)
        ensures
            r@ == self@,
            r.bytes()@ == self.bytes()@,
            r.bytes().is_inline() == self.bytes().is_inline(),
            r.bytes().handle() == self.bytes().handle(),
    {
        proof {
            use_type_invariant(self);
        }
        OurString(self.0.clone())
    }
}

impl<T: Comrade, const N: usize> core::ops::Deref for OurString<T, N> {
    type Target = str;

    fn deref(&self) -> (r: &str)
        ensures
            r@ == self@,
    {
        self.as_str()
    }
}

impl<T: Comrade, const N: usize> Default for OurString<T, N> {
    fn default() -> (r: Self)
        ensures
            r@ == Seq::<char>::empty(),
            r.bytes().is_inline(),
    {
        Self::new()
    }
}

impl<'a, T: Comrade, const N: usize> From<&'a str> for OurString<T, N> {
    fn from(value: &'a str) -> (r: Self)
        ensures
            r@ == value@,
            r.bytes().is_inline() <==> fits_inline(encode_utf8(value@).len(), N as nat),
    {
        Self::from_str(value)
    }
}

/// Which handle a string is stored in is the handle type's choice, so the
/// conversion is described by its own `ensures` rather than by a spec function.
impl<'a, T: Comrade, const N: usize> vstd::std_specs::convert::FromSpecImpl<&'a str> for OurString<T, N> {
    open spec fn obeys_from_spec() -> bool {
        false
    }

    open spec fn from_spec(v: &'a str) -> Self {
        arbitrary()
    }
}

impl<T: Comrade, const N: usize> AsRef<str> for OurString<T, N> {
    fn as_ref(&self) -> (r: &str)
        ensures
            r@ == self@,
    {
        self.as_str()
    }
}

impl<T: Comrade, const N: usize> core::borrow::Borrow<str> for OurString<T, N> {
    fn borrow(&self) -> &str {
        self.as_str()
    }
}

impl<T: Comrade, const N: usize, U: Comrade, const M: usize> PartialEq<OurString<U, M>> for OurString<T, N> {
    fn eq(&self, other: &OurString<U, M>) -> (r: bool) {
        proof {
            use_type_invariant(self);
            use_type_invariant(other);
            assert(encode_utf8(self@) == self.0@);
            assert(encode_utf8(other@) == other.0@);
        }
        equal_bytes(self.0.as_slice(), other.0.as_slice())
    }
}

impl<T: Comrade, const N: usize, U: Comrade, const M: usize> vstd::std_specs::cmp::PartialEqSpecImpl<OurString<U, M>> for OurString<T, N> {
    open spec fn obeys_eq_spec() -> bool {
        true
    }

    open spec fn eq_spec(&self, other: &OurString<U, M>) -> bool {
        self@ == other@
    }
}

impl<'a, T: Comrade, const N: usize> PartialEq<&'a str> for OurString<T, N> {
    fn eq(&self, other: &&'a str) -> (r: bool) {
        proof {
            use_type_invariant(self);
        }
        equal_bytes(self.0.as_slice(), other.as_bytes())
    }
}

impl<'a, T: Comrade, const N: usize> vstd::std_specs::cmp::PartialEqSpecImpl<&'a str> for OurString<T, N> {
    open spec fn obeys_eq_spec() -> bool {
        true
    }

    open spec fn eq_spec(&self, other: &&'a str) -> bool {
        self@ == (*other)@
    }
}

impl<T: Comrade, const N: usize> PartialEq<String> for OurString<T, N> {
    fn eq(&self, other: &String) -> (r: bool) {
        proof {
            use_type_invariant(self);
        }
        equal_bytes(self.0.as_slice(), other.as_str().as_bytes())
    }
}

impl<T: Comrade, const N: usize> vstd::std_specs::cmp::PartialEqSpecImpl<String> for OurString<T, N> {
    open spec fn obeys_eq_spec() -> bool {
        true
    }

    open spec fn eq_spec(&self, other: &String) -> bool {
        self@ == other@
    }
}

impl<'a, T: Comrade, const N: usize> PartialEq<OurString<T, N>> for &'a str {
    fn eq(&self, other: &OurString<T, N>) -> (r: bool) {
        proof {
            use_type_invariant(other);
        }
        equal_bytes(self.as_bytes(), other.0.as_slice())
    }
}

impl<'a, T: Comrade, const N: usize> vstd::std_specs::cmp::PartialEqSpecImpl<OurString<T, N>> for &'a str {
    open spec fn obeys_eq_spec() -> bool {
        true
    }

    open spec fn eq_spec(&self, other: &OurString<T, N>) -> bool {
        (*self)@ == other@
    }
}

impl<T: Comrade, const N: usize> Eq for OurString<T, N> {
}

impl<T: Comrade, const N: usize, U: Comrade, const M: usize> PartialOrd<OurString<U, M>> for OurString<T, N> {
    fn partial_cmp(&self, other: &OurString<U, M>) -> (r: Option<Ordering>) {
        proof {
            use_type_invariant(self);
            use_type_invariant(other);
        }
        Some(compare_bytes(self.0.as_slice(), other.0.as_slice()))
    }
}

impl<T: Comrade, const N: usize, U: Comrade, const M: usize> vstd::std_specs::cmp::PartialOrdSpecImpl<OurString<U, M>> for OurString<T, N> {
    open spec fn obeys_partial_cmp_spec() -> bool {
        true
    }

    open spec fn partial_cmp_spec(&self, other: &OurString<U, M>) -> Option<Ordering> {
        Some(lex_cmp(encode_utf8(self@), encode_utf8(other@)))
    }
}

impl<'a, T: Comrade, const N: usize> PartialOrd<&'a str> for OurString<T, N> {
    fn partial_cmp(&self, other: &&'a str) -> (r: Option<Ordering>) {
        proof {
            use_type_invariant(self);
        }
        Some(compare_bytes(self.0.as_slice(), other.as_bytes()))
    }
}

impl<'a, T: Comrade, const N: usize> vstd::std_specs::cmp::PartialOrdSpecImpl<&'a str> for OurString<T, N> {
    open spec fn obeys_partial_cmp_spec() -> bool {
        true
    }

    open spec fn partial_cmp_spec(&self, other: &&'a str) -> Option<Ordering> {
        Some(lex_cmp(encode_utf8(self@), encode_utf8((*other)@)))
    }
}

impl<T: Comrade, const N: usize> PartialOrd<String> for OurString<T, N> {
    fn partial_cmp(&self, other: &String) -> (r: Option<Ordering>) {
        proof {
            use_type_invariant(self);
        }
        Some(compare_bytes(self.0.as_slice(), other.as_str().as_bytes()))
    }
}

impl<T: Comrade, const N: usize> vstd::std_specs::cmp::PartialOrdSpecImpl<String> for OurString<T, N> {
    open spec fn obeys_partial_cmp_spec() -> bool {
        true
    }

    open spec fn partial_cmp_spec(&self, other: &String) -> Option<Ordering> {
        Some(lex_cmp(encode_utf8(self@), encode_utf8(other@)))
    }
}

impl<'a, T: Comrade, const N: usize> PartialOrd<OurString<T, N>> for &'a str {
    fn partial_cmp(&self, other: &OurString<T, N>) -> (r: Option<Ordering>) {
        proof {
            use_type_invariant(other);
        }
        Some(compare_bytes(self.as_bytes(), other.0.as_slice()))
    }
}

impl<'a, T: Comrade, const N: usize> vstd::std_specs::cmp::PartialOrdSpecImpl<OurString<T, N>> for &'a str {
    open spec fn obeys_partial_cmp_spec() -> bool {
        true
    }

    open spec fn partial_cmp_spec(&self, other: &OurString<T, N>) -> Option<Ordering> {
        Some(lex_cmp(encode_utf8((*self)@), encode_utf8(other@)))
    }
}

impl<T: Comrade, const N: usize> PartialEq<Box<str>> for OurString<T, N> {
    fn eq(&self, other: &Box<str>) -> (r: bool) {
        proof {
            use_type_invariant(self);
        }
        equal_bytes(self.0.as_slice(), (**other).as_bytes())
    }
}

impl<T: Comrade, const N: usize> vstd::std_specs::cmp::PartialEqSpecImpl<Box<str>> for OurString<T, N> {
    open spec fn obeys_eq_spec() -> bool {
        true
    }

    open spec fn eq_spec(&self, other: &Box<str>) -> bool {
        self@ == (**other)@
    }
}

impl<T: Comrade, const N: usize> PartialOrd<Box<str>> for OurString<T, N> {
    fn partial_cmp(&self, other: &Box<str>) -> (r: Option<Ordering>) {
        proof {
            use_type_invariant(self);
        }
        Some(compare_bytes(self.0.as_slice(), (**other).as_bytes()))
    }
}

impl<T: Comrade, const N: usize> vstd::std_specs::cmp::PartialOrdSpecImpl<Box<str>> for OurString<T, N> {
    open spec fn obeys_partial_cmp_spec() -> bool {
        true
    }

    open spec fn partial_cmp_spec(&self, other: &Box<str>) -> Option<Ordering> {
        Some(lex_cmp(encode_utf8(self@), encode_utf8((**other)@)))
    }
}

impl<T: Comrade, const N: usize> PartialEq<Rc<str>> for OurString<T, N> {
    fn eq(&self, other: &Rc<str>) -> (r: bool) {
        proof {
            use_type_invariant(self);
        }
        equal_bytes(self.0.as_slice(), (**other).as_bytes())
    }
}

impl<T: Comrade, const N: usize> vstd::std_specs::cmp::PartialEqSpecImpl<Rc<str>> for OurString<T, N> {
    open spec fn obeys_eq_spec() -> bool {
        true
    }

    open spec fn eq_spec(&self, other: &Rc<str>) -> bool {
        self@ == (**other)@
    }
}

impl<T: Comrade, const N: usize> PartialOrd<Rc<str>> for OurString<T, N> {
    fn partial_cmp(&self, other: &Rc<str>) -> (r: Option<Ordering>) {
        proof {
            use_type_invariant(self);
        }
        Some(compare_bytes(self.0.as_slice(), (**other).as_bytes()))
    }
}

impl<T: Comrade, const N: usize> vstd::std_specs::cmp::PartialOrdSpecImpl<Rc<str>> for OurString<T, N> {
    open spec fn obeys_partial_cmp_spec() -> bool {
        true
    }

    open spec fn partial_cmp_spec(&self, other: &Rc<str>) -> Option<Ordering> {
        Some(lex_cmp(encode_utf8(self@), encode_utf8((**other)@)))
    }
}

impl<T: Comrade, const N: usize> PartialEq<Arc<str>> for OurString<T, N> {
    fn eq(&self, other: &Arc<str>) -> (r: bool) {
        proof {
            use_type_invariant(self);
        }
        equal_bytes(self.0.as_slice(), (**other).as_bytes())
    }
}

impl<T: Comrade, const N: usize> vstd::std_specs::cmp::PartialEqSpecImpl<Arc<str>> for OurString<T, N> {
    open spec fn obeys_eq_spec() -> bool {
        true
    }

    open spec fn eq_spec(&self, other: &Arc<str>) -> bool {
        self@ == (**other)@
    }
}

impl<T: Comrade, const N: usize> PartialOrd<Arc<str>> for OurString<T, N> {
    fn partial_cmp(&self, other: &Arc<str>) -> (r: Option<Ordering>) {
        proof {
            use_type_invariant(self);
        }
        Some(compare_bytes(self.0.as_slice(), (**other).as_bytes()))
    }
}

impl<T: Comrade, const N: usize> vstd::std_specs::cmp::PartialOrdSpecImpl<Arc<str>> for OurString<T, N> {
    open spec fn obeys_partial_cmp_spec() -> bool {
        true
    }

    open spec fn partial_cmp_spec(&self, other: &Arc<str>) -> Option<Ordering> {
        Some(lex_cmp(encode_utf8(self@), encode_utf8((**other)@)))
    }
}

impl<T: Comrade, const N: usize> Ord for OurString<T, N> {
    /// Relies on `<str as Ord>::cmp`, which orders strings by their UTF-8
    /// bytes, lexicographically.
    #[verifier::external_body]
    fn cmp(&self, other: &Self) -> (r: Ordering)
        ensures
            r == lex_cmp(encode_utf8(self@), encode_utf8(other@)),
    {
        self.as_str().cmp(other.as_str())
    }
}

impl<T: Comrade, const N: usize> core::hash::Hash for OurString<T, N> {
    /// Hashes the content exactly as `str` does.
    fn hash<H: core::hash::Hasher>(&self, state: &mut H) {
        hash_str(self.as_str(), state)
    }
}

impl<T: Comrade, const N: usize> core::fmt::Debug for OurString<T, N> {
    /// Formats the content exactly as `str` does.
    fn fmt(&self, f: &mut core::fmt::Formatter<'_>) -> core::fmt::Result {
        debug_str(self.as_str(), f)
    }
}

} // verus!
