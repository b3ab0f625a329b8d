use vstd::prelude::*;

use crate::cpu::TlsBaseRegister;

verus! {

/// A thread-local-storage data image, as the early registry sees it: either
/// the empty sentinel or an image whose TLS data is anchored at a concrete
/// base address.
///
/// An image is a value that is owned and moved, never copied: handing one to
/// the registry relinquishes it, and replacing it in the registry drops it.
#[derive(Debug, PartialEq, Eq, Structural)]
pub enum TlsImage {
    /// The empty sentinel: a valid occupant of the registry's slot, distinct
    /// from any concrete image. Activating it anchors the null base.
    Empty,
    /// A concrete image whose TLS region is anchored at `base`.
    Data { base: u64 },
}

/// The TLS base that activating `image` establishes on the calling
/// processor: the image's own anchor, or the null base for the empty
/// sentinel.
pub open spec fn base_of(image: TlsImage) -> u64 {
    match image {
        TlsImage::Empty => 0,
        TlsImage::Data { base } => base,
    }
}

impl TlsImage {
    /// Constructs the empty sentinel image.
    pub fn empty() -> (r: Self)
        ensures
            r == TlsImage::Empty,
    {
        TlsImage::Empty
    }

    /// Constructs an image anchored at the given TLS base address.
    pub fn new(base: u64) -> (r: Self)
        ensures
            r == (TlsImage::Data { base }),
    {
        TlsImage::Data { base }
    }

    /// True exactly of the empty sentinel.
    pub fn is_empty(&self) -> (r: bool)
        ensures
            r == (*self == TlsImage::Empty),
    {
        match self {
            TlsImage::Empty => true,
            TlsImage::Data { .. } => false,
        }
    }

    /// The TLS base this image anchors.
    pub fn base_value(&self) -> (b: u64)
        ensures
            b == base_of(*self),
    {
        match self {
            TlsImage::Empty => 0,
            TlsImage::Data { base } => *base,
        }
    }

    /// Activates this image as the calling processor's TLS base.
    ///
    /// Only the calling processor's register state changes; the image itself
    /// is not mutated, and no other processor is affected.
    pub fn set_as_current_tls_base(&self, cpu: &mut TlsBaseRegister)
        ensures
            final(cpu)@ == base_of(*self),
    {
        cpu.load(self.base_value());
    }
}

} // verus!
