//! Byte buffers that are wiped from memory when dropped.
#![allow(unused_imports)]

use vstd::prelude::*;
use zeroize::Zeroizing;

verus! {

/// Secret bytes held in a `zeroize::Zeroizing<Vec<u8>>`, so that they are
/// overwritten with zeros when the value is dropped.
#[derive(Debug)]
#[verifier::external_body]
pub struct SecretBytes {
    inner: Zeroizing<Vec<u8>>,
}

/// The bytes that a wiped-on-drop buffer holds.
pub uninterp spec fn secret_bytes(s: SecretBytes) -> Seq<u8>;

impl View for SecretBytes {
    type V = Seq<u8>;

    open spec fn view(&self) -> Seq<u8> {
        secret_bytes(*self)
    }
}

impl SecretBytes {
    /// Moves `v` into a `Zeroizing` wrapper (`Zeroizing::new`); the buffer
    /// holds exactly the bytes of `v`.
    #[verifier::external_body]
    pub(crate) fn new(v: Vec<u8>) -> (r: SecretBytes)
        ensures
            secret_bytes(r) == v@,
    {
        SecretBytes { inner: Zeroizing::new(v) }
    }

    /// The held bytes, read through `Zeroizing`'s `Deref`.
    #[verifier::external_body]
    fn held(&self) -> (r: &[u8])
        ensures
            r@ == secret_bytes(*self),
    {
        self.inner.as_slice()
    }

    /// The held bytes.
    pub fn as_slice(&self) -> (r: &[u8])
        ensures
            r@ == self@,
    {
        self.held()
    }

    /// Number of held bytes.
    pub fn len(&self) -> (r: usize)
        ensures
            r == self@.len(),
    {
        self.as_slice().len()
    }

    /// Whether no bytes are held.
    pub fn is_empty(&self) -> (r: bool)
        ensures
            r == (self@.len() == 0),
    {
        self.len() == 0
    }
}

} // verus!
