use vstd::prelude::*;

use crate::cpu::TlsBaseRegister;
use crate::image::base_of;
use crate::image::TlsImage;
use crate::model::step;
use crate::model::TlsOp;
use crate::model::TlsState;
use crate::slot::slot_contents;
use crate::slot::slot_new;
use crate::slot::slot_read;
use crate::slot::slot_replace;

verus! {

/// The single-slot early TLS registry.
///
/// It exclusively owns whatever image occupies its slot; replacing the
/// occupant drops the previous one synchronously, as part of the same
/// operation. The slot is guarded by a spin-wait lock, so every operation
/// is safe to call from any processor, and a caller only ever observes a
/// whole image or the empty sentinel in the slot, never a partial value.
pub struct EarlyTlsRegistry {
    slot: spin::Mutex<TlsImage>,
}

impl View for EarlyTlsRegistry {
    type V = TlsImage;

    /// The image the registry currently holds.
    closed spec fn view(&self) -> TlsImage {
        slot_contents(self.slot)
    }
}

impl EarlyTlsRegistry {
    /// Creates the registry in its initial state: the slot exists and holds
    /// the empty sentinel.
    pub fn new() -> (r: Self)
        ensures
            r@ == TlsImage::Empty,
    {
        EarlyTlsRegistry { slot: slot_new(TlsImage::empty()) }
    }

    /// Installs `new_tls_image` as the early TLS image and loads it on the
    /// calling processor.
    ///
    /// The image is activated as the calling processor's TLS base first,
    /// and only then published into the slot, so the slot never reports an
    /// image that is not yet active on the processor that installed it. If
    /// an early TLS image already occupies the slot, it is replaced and
    /// dropped.
    pub fn insert(&mut self, new_tls_image: TlsImage, cpu: &mut TlsBaseRegister)
        ensures
            final(self)@ == new_tls_image,
            final(cpu)@ == base_of(new_tls_image),
            (TlsState { occupant: final(self)@, tls_base: final(cpu)@ }) == step(
                (TlsState { occupant: old(self)@, tls_base: old(cpu)@ }),
                TlsOp::Insert(new_tls_image),
            ),
    {
        new_tls_image.set_as_current_tls_base(cpu);
        slot_replace(&mut self.slot, new_tls_image);
    }

    /// Loads the existing early TLS image on the calling processor,
    /// re-activating whatever currently occupies the slot as that
    /// processor's TLS base, under exclusive access to the slot for the
    /// duration of the read.
    ///
    /// The registry itself is left unchanged, so repeated calls with no
    /// intervening `insert` or `drop_image` establish the same TLS base
    /// each time.
    ///
    /// The lock is held for the read of the occupant and released before
    /// the register itself is written. Observably that is the same as
    /// activating under the lock: the read is under exclusive access, the
    /// register belongs to the calling processor alone, and what is
    /// activated is exactly the occupant that read observed.
    pub fn reload(&self, cpu: &mut TlsBaseRegister)
        ensures
            final(cpu)@ == base_of(self@),
            (TlsState { occupant: self@, tls_base: final(cpu)@ }) == step(
                (TlsState { occupant: self@, tls_base: old(cpu)@ }),
                TlsOp::Reload,
            ),
    {
        let base: u64 = match slot_read(&self.slot) {
            None => 0,
            Some(base) => base,
        };
        cpu.load(base);
    }

    /// Clears the early TLS image, replacing the slot's occupant with the
    /// empty sentinel and dropping the previous occupant.
    ///
    /// This should only be invoked once every processor has transitioned to
    /// the full per-task TLS mechanism: a processor still depending on the
    /// early image is left with a stale TLS base. That is a caller
    /// contract; no processor's TLS base register is touched here.
    pub fn drop_image(&mut self)
        ensures
            final(self)@ == TlsImage::Empty,
            forall|base: u64|
                (TlsState { occupant: final(self)@, tls_base: base }) == #[trigger] step(
                    (TlsState { occupant: old(self)@, tls_base: base }),
                    TlsOp::DropImage,
                ),
    {
        slot_replace(&mut self.slot, TlsImage::empty());
    }

    /// True when the slot holds the empty sentinel.
    pub fn is_empty(&self) -> (r: bool)
        ensures
            r == (self@ == TlsImage::Empty),
    {
        match slot_read(&self.slot) {
            None => true,
            Some(_) => false,
        }
    }

    /// The TLS base that the slot's current occupant anchors: the base a
    /// `reload` on this registry would establish.
    pub fn occupant_base(&self) -> (b: u64)
        ensures
            b == base_of(self@),
    {
        match slot_read(&self.slot) {
            None => 0,
            Some(base) => base,
        }
    }
}

} // verus!
