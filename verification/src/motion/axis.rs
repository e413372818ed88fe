use vstd::prelude::*;

verus! {

/// Euler angle an output axis follows.
#[derive(Debug, Clone, Copy, PartialEq, Eq, Structural)]
pub enum SourceAxis {
    Roll,
    Pitch,
    Yaw,
}

#[derive(Debug, Clone, Copy, PartialEq, Eq, Structural)]
pub enum AxisDir {
    Normal,
    Inverted,
}

/// Which attitude angle drives a pointer axis, and in which direction.
#[derive(Debug, Clone, Copy, PartialEq, Eq, Structural)]
pub struct AxisMap {
    pub source: SourceAxis,
    pub dir: AxisDir,
}

/// Board mounting: the pointer's x axis follows yaw, reversed.
pub fn hw_map_x() -> (m: AxisMap)
    ensures
        m == (AxisMap { source: SourceAxis::Yaw, dir: AxisDir::Inverted }),
{
    AxisMap { source: SourceAxis::Yaw, dir: AxisDir::Inverted }
}

/// Board mounting: the pointer's y axis follows pitch.
pub fn hw_map_y() -> (m: AxisMap)
    ensures
        m == (AxisMap { source: SourceAxis::Pitch, dir: AxisDir::Normal }),
{
    AxisMap { source: SourceAxis::Pitch, dir: AxisDir::Normal }
}

} // verus!
