use vstd::prelude::*;

verus! {

/// Runs `f` as a critical section, in the form for targets without
/// interrupts to mask: `f` simply runs. On the RISC-V target the board code
/// masks interrupts around `f` instead.
pub fn interrupt_free<R, F: FnOnce() -> R>(f: F) -> (r: R)
    requires
        f.requires(()),
    ensures
        f.ensures((), r),
{
    f()
}

} // verus!
