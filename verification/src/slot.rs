use vstd::prelude::*;

use crate::image::TlsImage;

verus! {

/// Declares `spin::Mutex`, the spin-wait exclusive lock guarding the
/// registry's slot, so that it can stand in signatures and fields. Verus
/// sees its values as opaque; everything known of them is stated on the
/// wrappers below.
#[verifier::external_type_specification]
#[verifier::external_body]
#[verifier::reject_recursive_types(T)]
#[verifier::reject_recursive_types(R)]
pub struct ExSpinMutex<T: ?Sized, R>(spin::mutex::Mutex<T, R>);

/// Declares `spin::relax::Spin`, the busy-wait relax strategy the lock
/// spins with.
#[verifier::external_type_specification]
#[verifier::external_body]
pub struct ExSpinRelax(spin::relax::Spin);

/// The image a slot's lock currently stores.
pub uninterp spec fn slot_contents(slot: spin::Mutex<TlsImage>) -> TlsImage;

/// Relies on `spin::Mutex::new`: the new lock wraps exactly the supplied
/// value.
#[verifier::external_body]
pub(crate) fn slot_new(image: TlsImage) -> (slot: spin::Mutex<TlsImage>)
    ensures
        slot_contents(slot) == image,
{
    spin::Mutex::new(image)
}

/// Relies on `spin::Mutex::lock`: the returned guard grants exclusive
/// access to the stored value for as long as it lives; assigning through it
/// replaces that value whole, dropping the previous occupant before the
/// lock is released.
#[verifier::external_body]
pub(crate) fn slot_replace(slot: &mut spin::Mutex<TlsImage>, image: TlsImage)
    ensures
        slot_contents(*final(slot)) == image,
{
    *slot.lock() = image;
}

/// Relies on `spin::Mutex::lock`: the guard grants exclusive access for as
/// long as it lives and dereferences to the value the lock currently
/// stores, which the read leaves unchanged. The body only tells the
/// occupant's variants apart and hands the base field out.
#[verifier::external_body]
pub(crate) fn slot_read(slot: &spin::Mutex<TlsImage>) -> (r: Option<u64>)
    ensures
        r == (match slot_contents(*slot) {
            TlsImage::Empty => Option::<u64>::None,
            TlsImage::Data { base } => Option::Some(base),
        }),
{
    let guard = slot.lock();
    match &*guard {
        TlsImage::Empty => None,
        TlsImage::Data { base } => Some(*base),
    }
}

} // verus!
