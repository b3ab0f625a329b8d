use vstd::prelude::*;

use crate::image::base_of;
use crate::image::TlsImage;

verus! {

/// The observable state of the early TLS mechanism, seen from one
/// processor: the registry slot's occupant, and that processor's TLS base.
pub struct TlsState {
    /// The image the registry's slot holds.
    pub occupant: TlsImage,
    /// The base the processor's TLS base register anchors.
    pub tls_base: u64,
}

/// The three registry operations, as events of the model. Each mirrors one
/// method of `EarlyTlsRegistry`, performed by the processor whose TLS base
/// the state tracks.
pub enum TlsOp {
    /// Installing the given image.
    Insert(TlsImage),
    /// Re-activating the slot's occupant.
    Reload,
    /// Clearing the slot back to the empty sentinel.
    DropImage,
}

/// How one operation changes the state. This is exactly what the
/// corresponding method of `EarlyTlsRegistry` ensures of its `&mut`
/// parameters.
pub open spec fn step(s: TlsState, op: TlsOp) -> TlsState {
    match op {
        TlsOp::Insert(image) => TlsState { occupant: image, tls_base: base_of(image) },
        TlsOp::Reload => TlsState { occupant: s.occupant, tls_base: base_of(s.occupant) },
        TlsOp::DropImage => TlsState { occupant: TlsImage::Empty, tls_base: s.tls_base },
    }
}

/// The state after performing a whole sequence of operations in order.
pub open spec fn run(s: TlsState, ops: Seq<TlsOp>) -> TlsState
    decreases ops.len(),
{
    if ops.len() == 0 {
        s
    } else {
        run(step(s, ops[0]), ops.drop_first())
    }
}

/// A state whose TLS base already anchors the slot's occupant is a fixed
/// point of `reload`: any number of reloads, with nothing else in between,
/// leave both the occupant and the TLS base exactly as they are.
pub proof fn lemma_reloads_fix_state(s: TlsState, ops: Seq<TlsOp>)
    requires
        s.tls_base == base_of(s.occupant),
        forall|i: int| 0 <= i < ops.len() ==> ops[i] is Reload,
    ensures
        run(s, ops) == s,
    decreases ops.len(),
{
    if ops.len() != 0 {
        assert(ops[0] is Reload);
        assert(step(s, ops[0]) == s);
        assert(forall|i: int|
            0 <= i < ops.drop_first().len() ==> ops.drop_first()[i] is Reload);
        lemma_reloads_fix_state(s, ops.drop_first());
    }
}

/// `insert(image)` followed by any number of `reload`s, with no intervening
/// `insert` or `drop_image`, leaves the processor's TLS base at the base
/// that the insert established, and the registry still holding `image`.
pub proof fn lemma_reload_matches_insert(s: TlsState, image: TlsImage, later: Seq<TlsOp>)
    requires
        forall|i: int| 0 <= i < later.len() ==> later[i] is Reload,
    ensures
        run(step(s, TlsOp::Insert(image)), later) == step(s, TlsOp::Insert(image)),
        run(step(s, TlsOp::Insert(image)), later).tls_base == base_of(image),
        run(step(s, TlsOp::Insert(image)), later).occupant == image,
{
    lemma_reloads_fix_state(step(s, TlsOp::Insert(image)), later);
}

/// `drop_image` leaves the registry empty from every prior state.
pub proof fn lemma_drop_image_always_empties(s: TlsState)
    ensures
        step(s, TlsOp::DropImage).occupant == TlsImage::Empty,
{
}

/// Two back-to-back inserts leave the state as if only the second had
/// happened: the registry holds the second image only, and nothing of the
/// first image remains in the state.
pub proof fn lemma_insert_then_insert(s: TlsState, first: TlsImage, second: TlsImage)
    ensures
        step(step(s, TlsOp::Insert(first)), TlsOp::Insert(second)) == step(
            s,
            TlsOp::Insert(second),
        ),
        step(step(s, TlsOp::Insert(first)), TlsOp::Insert(second)).occupant == second,
{
}

} // verus!
