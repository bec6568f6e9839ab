//! Immutable byte and string values with small-buffer storage.
//!
//! Short content lives inline inside the value; longer content is kept in a
//! shared, reference-counted allocation supplied by a [`Comrade`] handle type.
use vstd::prelude::*;
use std::rc::Rc;
use std::sync::Arc;

mod bytes;
mod string;
pub mod order;
pub mod comrades;

pub use bytes::{OurBytes, fits_inline, lemma_same_content_equal, lemma_order_by_content};
pub use string::{OurString, lemma_utf8_round_trip, lemma_string_order_by_content};

verus! {

/// A shared, immutable handle to a byte sequence.
///
/// This should only be implemented on types whose clones share their
/// allocation (as `Rc` and `Arc` do), so that cloning is a reference-count
/// bump and never a copy of the content.
pub trait Comrade: Sized {
    /// The bytes that the handle owns.
    spec fn bytes(&self) -> Seq<u8>;

    /// A new handle to the same allocation. In Verus a handle is modelled by
    /// its contents, so the contract states an equal handle; that the address
    /// is shared is up to the implementation.
    fn share(&self) -> (r: Self)
        ensures
            r == *self,
    ;

    /// A fresh handle owning a copy of `s`.
    fn from_slice(s: &[u8]) -> (r: Self)
        ensures
            r.bytes() == s@,
    ;

    /// The bytes of the handle, without copying.
    fn as_slice(&self) -> (r: &[u8])
        ensures
            r@ == self.bytes(),
    ;
}

/// `core::fmt::Formatter`, carried through the `Debug` impls, which format
/// the content as `[u8]` or `str` do.
#[verifier::external_type_specification]
#[verifier::external_body]
pub struct ExFormatter<'a>(core::fmt::Formatter<'a>);

/// `core::fmt::Error`, the error of a formatting call.
#[verifier::external_type_specification]
#[verifier::external_body]
pub struct ExFmtError(core::fmt::Error);

impl Comrade for Rc<Vec<u8>> {
    open spec fn bytes(&self) -> Seq<u8> {
        (**self)@
    }

    fn share(&self) -> (r: Self) {
        self.clone()
    }

    fn from_slice(s: &[u8]) -> (r: Self) {
        Rc::new(vstd::slice::slice_to_vec(s))
    }

    fn as_slice(&self) -> (r: &[u8]) {
        (**self).as_slice()
    }
}

impl Comrade for Arc<Vec<u8>> {
    open spec fn bytes(&self) -> Seq<u8> {
        (**self)@
    }

    fn share(&self) -> (r: Self) {
        self.clone()
    }

    fn from_slice(s: &[u8]) -> (r: Self) {
        Arc::new(vstd::slice::slice_to_vec(s))
    }

    fn as_slice(&self) -> (r: &[u8]) {
        (**self).as_slice()
    }
}

impl Comrade for Rc<[u8]> {
    open spec fn bytes(&self) -> Seq<u8> {
        (**self)@
    }

    fn share(&self) -> (r: Self) {
        self.clone()
    }

    fn from_slice(s: &[u8]) -> (r: Self) {
        rc_slice_from(s)
    }

    fn as_slice(&self) -> (r: &[u8]) {
        &**self
    }
}

impl Comrade for Arc<[u8]> {
    open spec fn bytes(&self) -> Seq<u8> {
        (**self)@
    }

    fn share(&self) -> (r: Self) {
        self.clone()
    }

    fn from_slice(s: &[u8]) -> (r: Self) {
        arc_slice_from(s)
    }

    fn as_slice(&self) -> (r: &[u8]) {
        &**self
    }
}

/// Relies on `<Rc<[u8]> as From<&[u8]>>::from`: a new allocation holding a copy of `s`.
#[verifier::external_body]
fn rc_slice_from(s: &[u8]) -> (r: Rc<[u8]>)
    ensures
        (*r)@ == s@,
{
    Rc::from(s)
}

/// Relies on `<Arc<[u8]> as From<&[u8]>>::from`: a new allocation holding a copy of `s`.
#[verifier::external_body]
fn arc_slice_from(s: &[u8]) -> (r: Arc<[u8]>)
    ensures
        (*r)@ == s@,
{
    Arc::from(s)
}

} // verus!
