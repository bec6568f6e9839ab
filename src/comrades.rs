//! Single-word reference-counted byte buffers.
use vstd::prelude::*;
use std::rc::Rc;
use std::sync::Arc;
use core::cmp::Ordering;

use crate::Comrade;
use crate::bytes::{hash_slice, debug_slice};
use crate::order::{compare_bytes, equal_bytes, lex_cmp};

verus! {

/// A new vector holding a copy of `value`, in a heap block of its own even
/// when `value` is empty, so that every buffer's data has its own address.
fn owned_copy(value: &[u8]) -> (r: Vec<u8>)
    ensures
        r@ == value@,
{
    let cap: usize = if value.len() == 0 {
        1
    } else {
        value.len()
    };
    let mut v: Vec<u8> = Vec::with_capacity(cap);
    v.extend_from_slice(value);
    assert(v@ =~= value@);
    v
}

/// A single-word shared byte buffer, counted with a plain, single-thread counter.
///
/// The handle is one pointer wide, half of `Rc<[u8]>`, and an absent
/// `Option<RcBytes>` costs no extra space. Clones share one allocation; only
/// strong handles exist.
pub struct RcBytes(Rc<Vec<u8>>);

impl View for RcBytes {
    type V = Seq<u8>;

    closed spec fn view(&self) -> Seq<u8> {
        (*self.0)@
    }
}

impl RcBytes {
    /// A fresh allocation holding a copy of `value`, with one live handle.
    pub fn from_slice(value: &[u8]) -> (r: Self)
        ensures
            r@ == value@,
    {
        RcBytes(Rc::new(owned_copy(value)))
    }

    /// Gets a shared reference to the content.
    pub fn as_slice(&self) -> (r: &[u8])
        ensures
            r@ == self@,
    {
        self.0.as_slice()
    }

    /// The number of live handles to this allocation.
    pub fn live_count(&self) -> (r: usize)
        ensures
            r >= 1,
    {
        rc_strong_count(&self.0)
    }
}

/// Relies on `Rc::strong_count`: the number of strong handles to the
/// allocation, of which `p` is one.
#[verifier::external_body]
fn rc_strong_count(p: &Rc<Vec<u8>>) -> (r: usize)
    ensures
        r >= 1,
{
    Rc::strong_count(p)
}

impl Clone for RcBytes {
    /// Another handle to the same allocation; the live count goes up by one.
    fn clone(&self) -> (r: Self)
        ensures
            r == *self,
    {
        RcBytes(self.0.clone())
    }
}

impl core::ops::Deref for RcBytes {
    type Target = [u8];

    fn deref(&self) -> (r: &[u8])
        ensures
            r@ == self@,
    {
        self.as_slice()
    }
}

impl Default for RcBytes {
    /// An allocation holding no bytes.
    fn default() -> (r: Self)
        ensures
            r@ == Seq::<u8>::empty(),
    {
        RcBytes(Rc::new(owned_copy(&[])))
    }
}

impl<'a> From<&'a [u8]> for RcBytes {
    fn from(value: &'a [u8]) -> (r: Self)
        ensures
            r@ == value@,
    {
        Self::from_slice(value)
    }
}

/// A fresh allocation is made on each conversion, so the conversion is
/// described by its own `ensures` rather than by a spec function.
impl<'a> vstd::std_specs::convert::FromSpecImpl<&'a [u8]> for RcBytes {
    open spec fn obeys_from_spec() -> bool {
        false
    }

    open spec fn from_spec(v: &'a [u8]) -> Self {
        arbitrary()
    }
}

impl AsRef<[u8]> for RcBytes {
    fn as_ref(&self) -> (r: &[u8])
        ensures
            r@ == self@,
    {
        self.as_slice()
    }
}

impl core::borrow::Borrow<[u8]> for RcBytes {
    fn borrow(&self) -> &[u8] {
        self.as_slice()
    }
}

impl PartialEq for RcBytes {
    fn eq(&self, other: &RcBytes) -> (r: bool) {
        equal_bytes(self.as_slice(), other.as_slice())
    }
}

impl vstd::std_specs::cmp::PartialEqSpecImpl for RcBytes {
    open spec fn obeys_eq_spec() -> bool {
        true
    }

    open spec fn eq_spec(&self, other: &RcBytes) -> bool {
        self@ == other@
    }
}

impl<'a> PartialEq<&'a [u8]> for RcBytes {
    fn eq(&self, other: &&'a [u8]) -> (r: bool) {
        equal_bytes(self.as_slice(), *other)
    }
}

impl<'a> vstd::std_specs::cmp::PartialEqSpecImpl<&'a [u8]> for RcBytes {
    open spec fn obeys_eq_spec() -> bool {
        true
    }

    open spec fn eq_spec(&self, other: &&'a [u8]) -> bool {
        self@ == (*other)@
    }
}

impl PartialEq<Vec<u8>> for RcBytes {
    fn eq(&self, other: &Vec<u8>) -> (r: bool) {
        equal_bytes(self.as_slice(), other.as_slice())
    }
}

impl vstd::std_specs::cmp::PartialEqSpecImpl<Vec<u8>> for RcBytes {
    open spec fn obeys_eq_spec() -> bool {
        true
    }

    open spec fn eq_spec(&self, other: &Vec<u8>) -> bool {
        self@ == other@
    }
}

impl Eq for RcBytes {
}

impl PartialOrd for RcBytes {
    fn partial_cmp(&self, other: &RcBytes) -> (r: Option<Ordering>) {
        Some(compare_bytes(self.as_slice(), other.as_slice()))
    }
}

impl vstd::std_specs::cmp::PartialOrdSpecImpl for RcBytes {
    open spec fn obeys_partial_cmp_spec() -> bool {
        true
    }

    open spec fn partial_cmp_spec(&self, other: &RcBytes) -> Option<Ordering> {
        Some(lex_cmp(self@, other@))
    }
}

impl<'a> PartialOrd<&'a [u8]> for RcBytes {
    fn partial_cmp(&self, other: &&'a [u8]) -> (r: Option<Ordering>) {
        Some(compare_bytes(self.as_slice(), *other))
    }
}

impl<'a> vstd::std_specs::cmp::PartialOrdSpecImpl<&'a [u8]> for RcBytes {
    open spec fn obeys_partial_cmp_spec() -> bool {
        true
    }

    open spec fn partial_cmp_spec(&self, other: &&'a [u8]) -> Option<Ordering> {
        Some(lex_cmp(self@, (*other)@))
    }
}

impl PartialOrd<Vec<u8>> for RcBytes {
    fn partial_cmp(&self, other: &Vec<u8>) -> (r: Option<Ordering>) {
        Some(compare_bytes(self.as_slice(), other.as_slice()))
    }
}

impl vstd::std_specs::cmp::PartialOrdSpecImpl<Vec<u8>> for RcBytes {
    open spec fn obeys_partial_cmp_spec() -> bool {
        true
    }

    open spec fn partial_cmp_spec(&self, other: &Vec<u8>) -> Option<Ordering> {
        Some(lex_cmp(self@, other@))
    }
}

impl Ord for RcBytes {
    /// Relies on `<[u8] as Ord>::cmp`, which orders slices lexicographically.
    #[verifier::external_body]
    fn cmp(&self, other: &Self) -> (r: Ordering)
        ensures
            r == lex_cmp(self@, other@),
    {
        self.as_slice().cmp(other.as_slice())
    }
}

impl core::hash::Hash for RcBytes {
    /// Hashes the content exactly as the byte slice `[u8]` does.
    fn hash<H: core::hash::Hasher>(&self, state: &mut H) {
        hash_slice(self.as_slice(), state)
    }
}

impl core::fmt::Debug for RcBytes {
    /// Formats the content exactly as the byte slice `[u8]` does.
    fn fmt(&self, f: &mut core::fmt::Formatter<'_>) -> core::fmt::Result {
        debug_slice(self.as_slice(), f)
    }
}

impl Comrade for RcBytes {
    open spec fn bytes(&self) -> Seq<u8> {
        self@
    }

    fn share(&self) -> (r: Self) {
        self.clone()
    }

    fn from_slice(s: &[u8]) -> (r: Self) {
        RcBytes::from_slice(s)
    }

    fn as_slice(&self) -> (r: &[u8]) {
        RcBytes::as_slice(self)
    }
}

/// A single-word shared byte buffer, counted with an atomic counter, so that it may be sent and shared across threads.
///
/// The handle is one pointer wide, half of `Arc<[u8]>`, and an absent
/// `Option<ArcBytes>` costs no extra space. Clones share one allocation; only
/// strong handles exist.
pub struct ArcBytes(Arc<Vec<u8>>);

impl View for ArcBytes {
    type V = Seq<u8>;

    closed spec fn view(&self) -> Seq<u8> {
        (*self.0)@
    }
}

impl ArcBytes {
    /// A fresh allocation holding a copy of `value`, with one live handle.
    pub fn from_slice(value: &[u8]) -> (r: Self)
        ensures
            r@ == value@,
    {
        ArcBytes(Arc::new(owned_copy(value)))
    }

    /// Gets a shared reference to the content.
    pub fn as_slice(&self) -> (r: &[u8])
        ensures
            r@ == self@,
    {
        self.0.as_slice()
    }

    /// The number of live handles to this allocation.
    pub fn live_count(&self) -> (r: usize)
        ensures
            r >= 1,
    {
        arc_strong_count(&self.0)
    }
}

/// Relies on `Arc::strong_count`: the number of strong handles to the
/// allocation, of which `p` is one.
#[verifier::external_body]
fn arc_strong_count(p: &Arc<Vec<u8>>) -> (r: usize)
    ensures
        r >= 1,
{
    Arc::strong_count(p)
}

impl Clone for ArcBytes {
    /// Another handle to the same allocation; the live count goes up by one.
    fn clone(&self) -> (r: Self)
        ensures
            r == *self,
    {
        ArcBytes(self.0.clone())
    }
}

impl core::ops::Deref for ArcBytes {
    type Target = [u8];

    fn deref(&self) -> (r: &[u8])
        ensures
            r@ == self@,
    {
        self.as_slice()
    }
}

impl Default for ArcBytes {
    /// An allocation holding no bytes.
    fn default() -> (r: Self)
        ensures
            r@ == Seq::<u8>::empty(),
    {
        ArcBytes(Arc::new(owned_copy(&[])))
    }
}

impl<'a> From<&'a [u8]> for ArcBytes {
    fn from(value: &'a [u8]) -> (r: Self)
        ensures
            r@ == value@,
    {
        Self::from_slice(value)
    }
}

/// A fresh allocation is made on each conversion, so the conversion is
/// described by its own `ensures` rather than by a spec function.
impl<'a> vstd::std_specs::convert::FromSpecImpl<&'a [u8]> for ArcBytes {
    open spec fn obeys_from_spec() -> bool {
        false
    }

    open spec fn from_spec(v: &'a [u8]) -> Self {
        arbitrary()
    }
}

impl AsRef<[u8]> for ArcBytes {
    fn as_ref(&self) -> (r: &[u8])
        ensures
            r@ == self@,
    {
        self.as_slice()
    }
}

impl core::borrow::Borrow<[u8]> for ArcBytes {
    fn borrow(&self) -> &[u8] {
        self.as_slice()
    }
}

impl PartialEq for ArcBytes {
    fn eq(&self, other: &ArcBytes) -> (r: bool) {
        equal_bytes(self.as_slice(), other.as_slice())
    }
}

impl vstd::std_specs::cmp::PartialEqSpecImpl for ArcBytes {
    open spec fn obeys_eq_spec() -> bool {
        true
    }

    open spec fn eq_spec(&self, other: &ArcBytes) -> bool {
        self@ == other@
    }
}

impl<'a> PartialEq<&'a [u8]> for ArcBytes {
    fn eq(&self, other: &&'a [u8]) -> (r: bool) {
        equal_bytes(self.as_slice(), *other)
    }
}

impl<'a> vstd::std_specs::cmp::PartialEqSpecImpl<&'a [u8]> for ArcBytes {
    open spec fn obeys_eq_spec() -> bool {
        true
    }

    open spec fn eq_spec(&self, other: &&'a [u8]) -> bool {
        self@ == (*other)@
    }
}

impl PartialEq<Vec<u8>> for ArcBytes {
    fn eq(&self, other: &Vec<u8>) -> (r: bool) {
        equal_bytes(self.as_slice(), other.as_slice())
    }
}

impl vstd::std_specs::cmp::PartialEqSpecImpl<Vec<u8>> for ArcBytes {
    open spec fn obeys_eq_spec() -> bool {
        true
    }

    open spec fn eq_spec(&self, other: &Vec<u8>) -> bool {
        self@ == other@
    }
}

impl Eq for ArcBytes {
}

impl PartialOrd for ArcBytes {
    fn partial_cmp(&self, other: &ArcBytes) -> (r: Option<Ordering>) {
        Some(compare_bytes(self.as_slice(), other.as_slice()))
    }
}

impl vstd::std_specs::cmp::PartialOrdSpecImpl for ArcBytes {
    open spec fn obeys_partial_cmp_spec() -> bool {
        true
    }

    open spec fn partial_cmp_spec(&self, other: &ArcBytes) -> Option<Ordering> {
        Some(lex_cmp(self@, other@))
    }
}

impl<'a> PartialOrd<&'a [u8]> for ArcBytes {
    fn partial_cmp(&self, other: &&'a [u8]) -> (r: Option<Ordering>) {
        Some(compare_bytes(self.as_slice(), *other))
    }
}

impl<'a> vstd::std_specs::cmp::PartialOrdSpecImpl<&'a [u8]> for ArcBytes {
    open spec fn obeys_partial_cmp_spec() -> bool {
        true
    }

    open spec fn partial_cmp_spec(&self, other: &&'a [u8]) -> Option<Ordering> {
        Some(lex_cmp(self@, (*other)@))
    }
}

impl PartialOrd<Vec<u8>> for ArcBytes {
    fn partial_cmp(&self, other: &Vec<u8>) -> (r: Option<Ordering>) {
        Some(compare_bytes(self.as_slice(), other.as_slice()))
    }
}

impl vstd::std_specs::cmp::PartialOrdSpecImpl<Vec<u8>> for ArcBytes {
    open spec fn obeys_partial_cmp_spec() -> bool {
        true
    }

    open spec fn partial_cmp_spec(&self, other: &Vec<u8>) -> Option<Ordering> {
        Some(lex_cmp(self@, other@))
    }
}

impl Ord for ArcBytes {
    /// Relies on `<[u8] as Ord>::cmp`, which orders slices lexicographically.
    #[verifier::external_body]
    fn cmp(&self, other: &Self) -> (r: Ordering)
        ensures
            r == lex_cmp(self@, other@),
    {
        self.as_slice().cmp(other.as_slice())
    }
}

impl core::hash::Hash for ArcBytes {
    /// Hashes the content exactly as the byte slice `[u8]` does.
    fn hash<H: core::hash::Hasher>(&self, state: &mut H) {
        hash_slice(self.as_slice(), state)
    }
}

impl core::fmt::Debug for ArcBytes {
    /// Formats the content exactly as the byte slice `[u8]` does.
    fn fmt(&self, f: &mut core::fmt::Formatter<'_>) -> core::fmt::Result {
        debug_slice(self.as_slice(), f)
    }
}

impl Comrade for ArcBytes {
    open spec fn bytes(&self) -> Seq<u8> {
        self@
    }

    fn share(&self) -> (r: Self) {
        self.clone()
    }

    fn from_slice(s: &[u8]) -> (r: Self) {
        ArcBytes::from_slice(s)
    }

    fn as_slice(&self) -> (r: &[u8]) {
        ArcBytes::as_slice(self)
    }
}

} // verus!
