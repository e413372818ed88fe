use vstd::prelude::*;

verus! {

/// Whole-count pointer movement ready to go into a report.
#[derive(Clone, Copy, Debug, PartialEq, Eq, Structural)]
pub struct ReportDelta {
    pub dx: i8,
    pub dy: i8,
}

} // verus!
