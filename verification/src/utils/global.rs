use vstd::prelude::*;

verus! {

/// A value owned by the main loop, set once at start-up.
pub struct MainLoopGlobal<T> {
    inner: Option<T>,
}

impl<T> MainLoopGlobal<T> {
    pub closed spec fn spec_value(&self) -> Option<T> {
        self.inner
    }

    pub fn new() -> (g: Self)
        ensures
            g.spec_value() is None,
    {
        Self { inner: None }
    }

    pub fn init(&mut self, value: T)
        ensures
            final(self).spec_value() == Some(value),
    {
        self.inner = Some(value);
    }
}

} // verus!
