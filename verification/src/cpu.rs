use vstd::prelude::*;

verus! {

/// One processor's TLS base register, as the early TLS mechanism sees it:
/// the address that anchors TLS-relative accesses on that processor.
///
/// Each processor owns its register exclusively; loading a base into it
/// never affects any other processor.
pub struct TlsBaseRegister {
    current: u64,
}

impl View for TlsBaseRegister {
    type V = u64;

    closed spec fn view(&self) -> u64 {
        self.current
    }
}

impl TlsBaseRegister {
    /// A register as a processor starts out: anchored at the null base.
    pub fn new() -> (r: Self)
        ensures
            r@ == 0,
    {
        TlsBaseRegister { current: 0 }
    }

    /// Points the register at `base`.
    pub(crate) fn load(&mut self, base: u64)
        ensures
            final(self)@ == base,
    {
        self.current = base;
    }

    /// The base the register currently anchors.
    pub fn current_base(&self) -> (b: u64)
        ensures
            b == self@,
    {
        self.current
    }
}

} // verus!
