use vstd::prelude::*;
use core::num::NonZero;
use core::cmp::Ordering;

use vstd::std_specs::cmp::{PartialEqSpec, PartialOrdSpec};

use std::rc::Rc;
use std::sync::Arc;

use crate::Comrade;
use crate::comrades::{RcBytes, ArcBytes};
use crate::order::{compare_bytes, equal_bytes, lex_cmp, lemma_lex_cmp_equal};

verus! {

/// A byte that is never zero, so that the zero pattern is free for the
/// discriminant of an enclosing enum.
///
/// Holds a `core::num::NonZero<u8>`, which Verus cannot declare as an outside
/// type (its bound `ZeroablePrimitive` is sealed), so the field is hidden and
/// read only through the two functions below.
#[verifier::external_body]
#[derive(Copy)]
pub struct NonZeroByte(NonZero<u8>);

impl Clone for NonZeroByte {
    fn clone(&self) -> (r: Self)
        ensures
            r == *self,
    {
        *self
    }
}

/// The value held by a [`NonZeroByte`], as `NonZero::<u8>::get` returns it.
pub uninterp spec fn nonzero_value(b: NonZeroByte) -> u8;

/// Relies on `NonZero::<u8>::new`: `None` for zero, otherwise a value holding `n`.
#[verifier::external_body]
fn nonzero_new(n: u8) -> (r: Option<NonZeroByte>)
    ensures
        r is None <==> n == 0,
        r matches Some(b) ==> nonzero_value(b) == n,
{
    NonZero::new(n).map(NonZeroByte)
}

/// Relies on `NonZero::<u8>::get`: the value held, which is never zero.
#[verifier::external_body]
fn nonzero_get(b: NonZeroByte) -> (r: u8)
    ensures
        r == nonzero_value(b),
        r != 0,
{
    b.0.get()
}

/// Relies on `<[u8] as Hash>::hash`: feeds the slice to the hasher.
#[verifier::external_body]
pub(crate) fn hash_slice<H: core::hash::Hasher>(b: &[u8], state: &mut H) {
    core::hash::Hash::hash(b, state)
}

/// Relies on `<[u8] as Debug>::fmt`: writes the slice as a list of bytes.
#[verifier::external_body]
pub(crate) fn debug_slice(b: &[u8], f: &mut core::fmt::Formatter<'_>) -> core::fmt::Result {
    core::fmt::Debug::fmt(b, f)
}

/// The stored form of an inline length: its bitwise complement.
fn packed_len(len: u8) -> (r: NonZeroByte)
    requires
        len < 255,
    ensures
        nonzero_value(r) == 255 - len,
{
    let c: u8 = !len;
    assert(!len == 255 - len) by (bit_vector);
    nonzero_new(c).unwrap()
}

/// Decodes an inline length from its stored form.
fn unpacked_len(b: NonZeroByte) -> (r: u8)
    ensures
        r == 255 - nonzero_value(b),
        r < 255,
{
    let c: u8 = nonzero_get(b);
    assert(c != 0 ==> !c == 255 - c && !c < 255) by (bit_vector);
    !c
}

enum OurInner<T, const N: usize> {
    /// The length is stored as its bitwise complement, `255 - len`.
    Inline { len: NonZeroByte, content: [u8; N] },
    Outline { handle: T },
}

/// A customizable immutable shared byte collection.
///
/// Data is kept inline up to `N` bytes (at most 254), or stored in a shared
/// [`Comrade`] handle `T`.
pub struct OurBytes<T: Comrade, const N: usize>(OurInner<T, N>);

/// Whether content of length `len` is stored inline at capacity `n`.
pub open spec fn fits_inline(len: nat, n: nat) -> bool {
    len <= n && len < 255
}

impl<T: Comrade, const N: usize> View for OurBytes<T, N> {
    type V = Seq<u8>;

    /// The content.
    closed spec fn view(&self) -> Seq<u8> {
        match self.0 {
            OurInner::Inline { len, content } => content@.subrange(0, 255 - nonzero_value(len)),
            OurInner::Outline { handle } => handle.bytes(),
        }
    }
}

impl<T: Comrade, const N: usize> OurBytes<T, N> {
    #[verifier::type_invariant]
    spec fn well_formed(self) -> bool {
        match self.0 {
            OurInner::Inline { len, .. } => {
                &&& nonzero_value(len) != 0
                &&& 255 - nonzero_value(len) <= N
            },
            OurInner::Outline { .. } => true,
        }
    }

    /// Whether the content is stored inline.
    pub closed spec fn is_inline(&self) -> bool {
        self.0 is Inline
    }

    /// The shared handle holding the content, when it is stored outline.
    pub closed spec fn handle(&self) -> Option<T> {
        match self.0 {
            OurInner::Inline { .. } => None,
            OurInner::Outline { handle } => Some(handle),
        }
    }

    /// Creates a new empty instance, with inline data.
    pub fn new() -> (r: Self)
        ensures
            r@ == Seq::<u8>::empty(),
            r.is_inline(),
    {
        let content = [0u8; N];
        OurBytes(OurInner::Inline { len: packed_len(0), content })
    }

    /// Builds an instance holding a copy of `value`: inline when it fits,
    /// otherwise in a fresh handle `T`.
    pub fn from_slice(value: &[u8]) -> (r: Self)
        ensures
            r@ == value@,
            r.is_inline() <==> fits_inline(value@.len(), N as nat),
    {
        if value.len() <= N && value.len() < 255 {
            let mut content = [0u8; N];
            let n: usize = value.len();
            let mut i: usize = 0;
            while i < n
                invariant
                    n == value@.len(),
                    n <= N,
                    i <= n,
                    content@.len() == N,
                    forall|j: int| 0 <= j < i ==> content@[j] == value@[j],
                decreases n - i,
            {
                content[i] = value[i];
                i = i + 1;
            }
            let r = OurBytes(OurInner::Inline { len: packed_len(n as u8), content });
            assert(r@ =~= value@);
            r
        } else {
            OurBytes(OurInner::Outline { handle: T::from_slice(value) })
        }
    }

    /// Wraps an existing shared handle without inlining, so that the
    /// sharing is kept.
    pub fn from_handle(handle: T) -> (r: Self)
        ensures
            r@ == handle.bytes(),
            r.handle() == Some(handle),
            !r.is_inline(),
    {
        OurBytes(OurInner::Outline { handle })
    }

    /// Converts this instance into one with inline capacity `M`.
    ///
    /// A shared handle is reused as it is; inline content is re-derived as
    /// [`OurBytes::from_slice`] would, which allocates when it no longer fits.
    pub fn convert<const M: usize>(self) -> (r: OurBytes<T, M>)
        ensures
            r@ == self@,
            self.is_inline() ==> fits_inline(self@.len(), N as nat),
            !self.is_inline() ==> !r.is_inline() && r.handle() == self.handle(),
            self.is_inline() ==> (r.is_inline() <==> self@.len() <= M),
    {
        proof {
            use_type_invariant(&self);
        }
        match self.0 {
            OurInner::Inline { .. } => OurBytes::from_slice(self.as_slice()),
            OurInner::Outline { handle } => OurBytes::from_handle(handle),
        }
    }

    /// Gets a shared reference to the content.
    pub fn as_slice(&self) -> (r: &[u8])
        ensures
            r@ == self@,
            self.is_inline() ==> fits_inline(self@.len(), N as nat),
    {
        proof {
            use_type_invariant(self);
        }
        match &self.0 {
            OurInner::Inline { len, content } => {
                let n: u8 = unpacked_len(*len);
                &content[0..n as usize]
            },
            OurInner::Outline { handle } => handle.as_slice(),
        }
    }
}

/// Containers holding the same bytes compare equal, and neither orders
/// before the other, whatever their inline capacities, handle types or
/// representations.
pub proof fn lemma_same_content_equal<T: Comrade, const N: usize, U: Comrade, const M: usize>(
    s: Seq<u8>,
    a: OurBytes<T, N>,
    b: OurBytes<U, M>,
)
    requires
        a@ == s,
        b@ == s,
    ensures
        a.eq_spec(&b),
        b.eq_spec(&a),
        a.partial_cmp_spec(&b) == Some(Ordering::Equal),
        b.partial_cmp_spec(&a) == Some(Ordering::Equal),
{
    lemma_lex_cmp_equal(a@, b@);
    lemma_lex_cmp_equal(b@, a@);
}

/// Two containers are ordered as their bytes are, lexicographically as `[u8]`
/// orders slices, whatever their capacities, handle types or
/// representations; the order agrees with `==`.
pub proof fn lemma_order_by_content<T: Comrade, const N: usize, U: Comrade, const M: usize>(
    a: OurBytes<T, N>,
    b: OurBytes<U, M>,
)
    ensures
        a.partial_cmp_spec(&b) == Some(lex_cmp(a@, b@)),
        a.partial_cmp_spec(&b) == Some(Ordering::Equal) <==> a.eq_spec(&b),
{
    lemma_lex_cmp_equal(a@, b@);
}

impl<T: Comrade, const N: usize> Clone for OurBytes<T, N> {
    /// Inline content is copied; a shared handle is shared again through
    /// [`Comrade::share`]. Verus sees a handle as its contents, so `handle()`
    /// states equal handles, not the same address.
    fn clone(&self) -> (r: Self)
        ensures
            r@ == self@,
            r.is_inline() == self.is_inline(),
            r.handle() == self.handle(),
    {
        proof {
            use_type_invariant(self);
        }
        match &self.0 {
            OurInner::Inline { len, content } => OurBytes(OurInner::Inline { len: *len, content: *content }),
            OurInner::Outline { handle } => OurBytes(OurInner::Outline { handle: handle.share() }),
        }
    }
}

impl<T: Comrade, const N: usize> core::ops::Deref for OurBytes<T, N> {
    type Target = [u8];

    fn deref(&self) -> (r: &[u8])
        ensures
            r@ == self@,
    {
        self.as_slice()
    }
}

impl<T: Comrade, const N: usize> Default for OurBytes<T, N> {
    fn default() -> (r: Self)
        ensures
            r@ == Seq::<u8>::empty(),
            r.is_inline(),
    {
        Self::new()
    }
}

impl<T: Comrade, const N: usize> AsRef<[u8]> for OurBytes<T, N> {
    fn as_ref(&self) -> (r: &[u8])
        ensures
            r@ == self@,
    {
        self.as_slice()
    }
}

impl<T: Comrade, const N: usize> core::borrow::Borrow<[u8]> for OurBytes<T, N> {
    fn borrow(&self) -> &[u8] {
        self.as_slice()
    }
}

impl<'a, T: Comrade, const N: usize> From<&'a [u8]> for OurBytes<T, N> {
    fn from(value: &'a [u8]) -> (r: Self)
        ensures
            r@ == value@,
            r.is_inline() <==> fits_inline(value@.len(), N as nat),
    {
        Self::from_slice(value)
    }
}

/// Which handle a slice is stored in is the handle type's choice, so the
/// conversion is described by its own `ensures` rather than by a spec function.
impl<'a, T: Comrade, const N: usize> vstd::std_specs::convert::FromSpecImpl<&'a [u8]> for OurBytes<T, N> {
    open spec fn obeys_from_spec() -> bool {
        false
    }

    open spec fn from_spec(v: &'a [u8]) -> Self {
        arbitrary()
    }
}

impl<T: Comrade, const N: usize> From<T> for OurBytes<T, N> {
    fn from(handle: T) -> (r: Self)
        ensures
            r@ == handle.bytes(),
            r.handle() == Some(handle),
            !r.is_inline(),
    {
        Self::from_handle(handle)
    }
}

impl<T: Comrade, const N: usize> vstd::std_specs::convert::FromSpecImpl<T> for OurBytes<T, N> {
    open spec fn obeys_from_spec() -> bool {
        true
    }

    closed spec fn from_spec(handle: T) -> Self {
        OurBytes(OurInner::Outline { handle })
    }
}

impl<T: Comrade, const N: usize, U: Comrade, const M: usize> PartialEq<OurBytes<U, M>> for OurBytes<T, N> {
    fn eq(&self, other: &OurBytes<U, M>) -> (r: bool) {
        equal_bytes(self.as_slice(), other.as_slice())
    }
}

impl<T: Comrade, const N: usize, U: Comrade, const M: usize> vstd::std_specs::cmp::PartialEqSpecImpl<OurBytes<U, M>> for OurBytes<T, N> {
    open spec fn obeys_eq_spec() -> bool {
        true
    }

    open spec fn eq_spec(&self, other: &OurBytes<U, M>) -> bool {
        self@ == other@
    }
}

impl<'a, T: Comrade, const N: usize> PartialEq<&'a [u8]> for OurBytes<T, N> {
    fn eq(&self, other: &&'a [u8]) -> (r: bool) {
        equal_bytes(self.as_slice(), *other)
    }
}

impl<'a, T: Comrade, const N: usize> vstd::std_specs::cmp::PartialEqSpecImpl<&'a [u8]> for OurBytes<T, N> {
    open spec fn obeys_eq_spec() -> bool {
        true
    }

    open spec fn eq_spec(&self, other: &&'a [u8]) -> bool {
        self@ == (*other)@
    }
}

impl<T: Comrade, const N: usize> PartialEq<Vec<u8>> for OurBytes<T, N> {
    fn eq(&self, other: &Vec<u8>) -> (r: bool) {
        equal_bytes(self.as_slice(), other.as_slice())
    }
}

impl<T: Comrade, const N: usize> vstd::std_specs::cmp::PartialEqSpecImpl<Vec<u8>> for OurBytes<T, N> {
    open spec fn obeys_eq_spec() -> bool {
        true
    }

    open spec fn eq_spec(&self, other: &Vec<u8>) -> bool {
        self@ == other@
    }
}

impl<'a, T: Comrade, const N: usize> PartialEq<OurBytes<T, N>> for &'a [u8] {
    fn eq(&self, other: &OurBytes<T, N>) -> (r: bool) {
        equal_bytes(*self, other.as_slice())
    }
}

impl<'a, T: Comrade, const N: usize> vstd::std_specs::cmp::PartialEqSpecImpl<OurBytes<T, N>> for &'a [u8] {
    open spec fn obeys_eq_spec() -> bool {
        true
    }

    open spec fn eq_spec(&self, other: &OurBytes<T, N>) -> bool {
        (*self)@ == other@
    }
}

impl<T: Comrade, const N: usize> Eq for OurBytes<T, N> {
}

impl<T: Comrade, const N: usize, U: Comrade, const M: usize> PartialOrd<OurBytes<U, M>> for OurBytes<T, N> {
    fn partial_cmp(&self, other: &OurBytes<U, M>) -> (r: Option<Ordering>) {
        Some(compare_bytes(self.as_slice(), other.as_slice()))
    }
}

impl<T: Comrade, const N: usize, U: Comrade, const M: usize> vstd::std_specs::cmp::PartialOrdSpecImpl<OurBytes<U, M>> for OurBytes<T, N> {
    open spec fn obeys_partial_cmp_spec() -> bool {
        true
    }

    open spec fn partial_cmp_spec(&self, other: &OurBytes<U, M>) -> Option<Ordering> {
        Some(lex_cmp(self@, other@))
    }
}

impl<'a, T: Comrade, const N: usize> PartialOrd<&'a [u8]> for OurBytes<T, N> {
    fn partial_cmp(&self, other: &&'a [u8]) -> (r: Option<Ordering>) {
        Some(compare_bytes(self.as_slice(), *other))
    }
}

impl<'a, T: Comrade, const N: usize> vstd::std_specs::cmp::PartialOrdSpecImpl<&'a [u8]> for OurBytes<T, N> {
    open spec fn obeys_partial_cmp_spec() -> bool {
        true
    }

    open spec fn partial_cmp_spec(&self, other: &&'a [u8]) -> Option<Ordering> {
        Some(lex_cmp(self@, (*other)@))
    }
}

impl<T: Comrade, const N: usize> PartialOrd<Vec<u8>> for OurBytes<T, N> {
    fn partial_cmp(&self, other: &Vec<u8>) -> (r: Option<Ordering>) {
        Some(compare_bytes(self.as_slice(), other.as_slice()))
    }
}

impl<T: Comrade, const N: usize> vstd::std_specs::cmp::PartialOrdSpecImpl<Vec<u8>> for OurBytes<T, N> {
    open spec fn obeys_partial_cmp_spec() -> bool {
        true
    }

    open spec fn partial_cmp_spec(&self, other: &Vec<u8>) -> Option<Ordering> {
        Some(lex_cmp(self@, other@))
    }
}

impl<'a, T: Comrade, const N: usize> PartialOrd<OurBytes<T, N>> for &'a [u8] {
    fn partial_cmp(&self, other: &OurBytes<T, N>) -> (r: Option<Ordering>) {
        Some(compare_bytes(*self, other.as_slice()))
    }
}

impl<'a, T: Comrade, const N: usize> vstd::std_specs::cmp::PartialOrdSpecImpl<OurBytes<T, N>> for &'a [u8] {
    open spec fn obeys_partial_cmp_spec() -> bool {
        true
    }

    open spec fn partial_cmp_spec(&self, other: &OurBytes<T, N>) -> Option<Ordering> {
        Some(lex_cmp((*self)@, other@))
    }
}

impl<T: Comrade, const N: usize> PartialEq<Box<[u8]>> for OurBytes<T, N> {
    fn eq(&self, other: &Box<[u8]>) -> (r: bool) {
        equal_bytes(self.as_slice(), &**other)
    }
}

impl<T: Comrade, const N: usize> vstd::std_specs::cmp::PartialEqSpecImpl<Box<[u8]>> for OurBytes<T, N> {
    open spec fn obeys_eq_spec() -> bool {
        true
    }

    open spec fn eq_spec(&self, other: &Box<[u8]>) -> bool {
        self@ == (**other)@
    }
}

impl<T: Comrade, const N: usize> PartialOrd<Box<[u8]>> for OurBytes<T, N> {
    fn partial_cmp(&self, other: &Box<[u8]>) -> (r: Option<Ordering>) {
        Some(compare_bytes(self.as_slice(), &**other))
    }
}

impl<T: Comrade, const N: usize> vstd::std_specs::cmp::PartialOrdSpecImpl<Box<[u8]>> for OurBytes<T, N> {
    open spec fn obeys_partial_cmp_spec() -> bool {
        true
    }

    open spec fn partial_cmp_spec(&self, other: &Box<[u8]>) -> Option<Ordering> {
        Some(lex_cmp(self@, (**other)@))
    }
}

impl<T: Comrade, const N: usize> PartialEq<Rc<[u8]>> for OurBytes<T, N> {
    fn eq(&self, other: &Rc<[u8]>) -> (r: bool) {
        equal_bytes(self.as_slice(), &**other)
    }
}

impl<T: Comrade, const N: usize> vstd::std_specs::cmp::PartialEqSpecImpl<Rc<[u8]>> for OurBytes<T, N> {
    open spec fn obeys_eq_spec() -> bool {
        true
    }

    open spec fn eq_spec(&self, other: &Rc<[u8]>) -> bool {
        self@ == (**other)@
    }
}

impl<T: Comrade, const N: usize> PartialOrd<Rc<[u8]>> for OurBytes<T, N> {
    fn partial_cmp(&self, other: &Rc<[u8]>) -> (r: Option<Ordering>) {
        Some(compare_bytes(self.as_slice(), &**other))
    }
}

impl<T: Comrade, const N: usize> vstd::std_specs::cmp::PartialOrdSpecImpl<Rc<[u8]>> for OurBytes<T, N> {
    open spec fn obeys_partial_cmp_spec() -> bool {
        true
    }

    open spec fn partial_cmp_spec(&self, other: &Rc<[u8]>) -> Option<Ordering> {
        Some(lex_cmp(self@, (**other)@))
    }
}

impl<T: Comrade, const N: usize> PartialEq<Arc<[u8]>> for OurBytes<T, N> {
    fn eq(&self, other: &Arc<[u8]>) -> (r: bool) {
        equal_bytes(self.as_slice(), &**other)
    }
}

impl<T: Comrade, const N: usize> vstd::std_specs::cmp::PartialEqSpecImpl<Arc<[u8]>> for OurBytes<T, N> {
    open spec fn obeys_eq_spec() -> bool {
        true
    }

    open spec fn eq_spec(&self, other: &Arc<[u8]>) -> bool {
        self@ == (**other)@
    }
}

impl<T: Comrade, const N: usize> PartialOrd<Arc<[u8]>> for OurBytes<T, N> {
    fn partial_cmp(&self, other: &Arc<[u8]>) -> (r: Option<Ordering>) {
        Some(compare_bytes(self.as_slice(), &**other))
    }
}

impl<T: Comrade, const N: usize> vstd::std_specs::cmp::PartialOrdSpecImpl<Arc<[u8]>> for OurBytes<T, N> {
    open spec fn obeys_partial_cmp_spec() -> bool {
        true
    }

    open spec fn partial_cmp_spec(&self, other: &Arc<[u8]>) -> Option<Ordering> {
        Some(lex_cmp(self@, (**other)@))
    }
}

impl<T: Comrade, const N: usize> PartialEq<RcBytes> for OurBytes<T, N> {
    fn eq(&self, other: &RcBytes) -> (r: bool) {
        equal_bytes(self.as_slice(), other.as_slice())
    }
}

impl<T: Comrade, const N: usize> vstd::std_specs::cmp::PartialEqSpecImpl<RcBytes> for OurBytes<T, N> {
    open spec fn obeys_eq_spec() -> bool {
        true
    }

    open spec fn eq_spec(&self, other: &RcBytes) -> bool {
        self@ == other@
    }
}

impl<T: Comrade, const N: usize> PartialOrd<RcBytes> for OurBytes<T, N> {
    fn partial_cmp(&self, other: &RcBytes) -> (r: Option<Ordering>) {
        Some(compare_bytes(self.as_slice(), other.as_slice()))
    }
}

impl<T: Comrade, const N: usize> vstd::std_specs::cmp::PartialOrdSpecImpl<RcBytes> for OurBytes<T, N> {
    open spec fn obeys_partial_cmp_spec() -> bool {
        true
    }

    open spec fn partial_cmp_spec(&self, other: &RcBytes) -> Option<Ordering> {
        Some(lex_cmp(self@, other@))
    }
}

impl<T: Comrade, const N: usize> PartialEq<ArcBytes> for OurBytes<T, N> {
    fn eq(&self, other: &ArcBytes) -> (r: bool) {
        equal_bytes(self.as_slice(), other.as_slice())
    }
}

impl<T: Comrade, const N: usize> vstd::std_specs::cmp::PartialEqSpecImpl<ArcBytes> for OurBytes<T, N> {
    open spec fn obeys_eq_spec() -> bool {
        true
    }

    open spec fn eq_spec(&self, other: &ArcBytes) -> bool {
        self@ == other@
    }
}

impl<T: Comrade, const N: usize> PartialOrd<ArcBytes> for OurBytes<T, N> {
    fn partial_cmp(&self, other: &ArcBytes) -> (r: Option<Ordering>) {
        Some(compare_bytes(self.as_slice(), other.as_slice()))
    }
}

impl<T: Comrade, const N: usize> vstd::std_specs::cmp::PartialOrdSpecImpl<ArcBytes> for OurBytes<T, N> {
    open spec fn obeys_partial_cmp_spec() -> bool {
        true
    }

    open spec fn partial_cmp_spec(&self, other: &ArcBytes) -> Option<Ordering> {
        Some(lex_cmp(self@, other@))
    }
}

impl<T: Comrade, const N: usize> Ord for OurBytes<T, N> {
    /// Relies on `<[u8] as Ord>::cmp`, which orders slices lexicographically.
    #[verifier::external_body]
    fn cmp(&self, other: &Self) -> (r: Ordering)
        ensures
            r == lex_cmp(self@, other@),
    {
        self.as_slice().cmp(other.as_slice())
    }
}

impl<T: Comrade, const N: usize> core::hash::Hash for OurBytes<T, N> {
    /// Hashes the content exactly as the byte slice `[u8]` does.
    fn hash<H: core::hash::Hasher>(&self, state: &mut H) {
        hash_slice(self.as_slice(), state)
    }
}

impl<T: Comrade, const N: usize> core::fmt::Debug for OurBytes<T, N> {
    /// Formats the content exactly as the byte slice `[u8]` does.
    fn fmt(&self, f: &mut core::fmt::Formatter<'_>) -> core::fmt::Result {
        debug_slice(self.as_slice(), f)
    }
}

} // verus!