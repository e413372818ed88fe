use vstd::prelude::*;

verus! {

/// What a physical button does when held.
#[derive(Clone, Copy, Debug, PartialEq, Eq, Structural)]
pub enum ButtonFunction {
    Unassigned,
    Left,
    Right,
    Middle,
    Action,
    Laser,
    ScrollUp,
    ScrollDown,
}

pub const MAX_FUNCTIONS_PER_BUTTON: usize = 4;

/// Up to four functions triggered together by one button.
#[derive(Clone, Copy, Debug, PartialEq, Eq)]
pub struct ButtonMapping {
    pub fns: [ButtonFunction; 4],
}

impl ButtonMapping {
    pub fn new(fns: [ButtonFunction; 4]) -> (m: Self)
        ensures
            m.fns == fns,
    {
        Self { fns }
    }
}

pub const PHYSICAL_BUTTON_COUNT: usize = 6;

/// Mapping of each physical button.
#[derive(Clone, Copy, Debug, PartialEq, Eq)]
pub struct ButtonProfile {
    pub context: ButtonMapping,
    pub action: ButtonMapping,
    pub up: ButtonMapping,
    pub down: ButtonMapping,
    pub primary: ButtonMapping,
    pub secondary: ButtonMapping,
}

fn none() -> (f: ButtonFunction)
    ensures
        f == ButtonFunction::Unassigned,
{
    ButtonFunction::Unassigned
}

fn btn(fns: [ButtonFunction; 4]) -> (m: ButtonMapping)
    ensures
        m.fns == fns,
{
    ButtonMapping::new(fns)
}

/// A mapping that triggers `f` alone.
pub open spec fn single(m: ButtonMapping, f: ButtonFunction) -> bool {
    m.fns@ == seq![
        f,
        ButtonFunction::Unassigned,
        ButtonFunction::Unassigned,
        ButtonFunction::Unassigned,
    ]
}

/// The factory mapping: context is middle click, action triggers motion,
/// up and down scroll, primary and secondary are left and right click.
pub open spec fn is_default_profile(p: ButtonProfile) -> bool {
    &&& single(p.context, ButtonFunction::Middle)
    &&& single(p.action, ButtonFunction::Action)
    &&& single(p.up, ButtonFunction::ScrollUp)
    &&& single(p.down, ButtonFunction::ScrollDown)
    &&& single(p.primary, ButtonFunction::Left)
    &&& single(p.secondary, ButtonFunction::Right)
}

impl Default for ButtonProfile {
    fn default() -> (p: Self)
        ensures
            is_default_profile(p),
    {
        let p = Self {
            context: btn([ButtonFunction::Middle, none(), none(), none()]),
            action: btn([ButtonFunction::Action, none(), none(), none()]),
            up: btn([ButtonFunction::ScrollUp, none(), none(), none()]),
            down: btn([ButtonFunction::ScrollDown, none(), none(), none()]),
            primary: btn([ButtonFunction::Left, none(), none(), none()]),
            secondary: btn([ButtonFunction::Right, none(), none(), none()]),
        };
        assert(p.context.fns@ =~= seq![
            ButtonFunction::Middle,
            ButtonFunction::Unassigned,
            ButtonFunction::Unassigned,
            ButtonFunction::Unassigned,
        ]);
        assert(p.action.fns@ =~= seq![
            ButtonFunction::Action,
            ButtonFunction::Unassigned,
            ButtonFunction::Unassigned,
            ButtonFunction::Unassigned,
        ]);
        assert(p.up.fns@ =~= seq![
            ButtonFunction::ScrollUp,
            ButtonFunction::Unassigned,
            ButtonFunction::Unassigned,
            ButtonFunction::Unassigned,
        ]);
        assert(p.down.fns@ =~= seq![
            ButtonFunction::ScrollDown,
            ButtonFunction::Unassigned,
            ButtonFunction::Unassigned,
            ButtonFunction::Unassigned,
        ]);
        assert(p.primary.fns@ =~= seq![
            ButtonFunction::Left,
            ButtonFunction::Unassigned,
            ButtonFunction::Unassigned,
            ButtonFunction::Unassigned,
        ]);
        assert(p.secondary.fns@ =~= seq![
            ButtonFunction::Right,
            ButtonFunction::Unassigned,
            ButtonFunction::Unassigned,
            ButtonFunction::Unassigned,
        ]);
        p
    }
}

/// Three selectable button profiles.
#[derive(Clone, Copy, Debug, PartialEq, Eq)]
pub struct InputConfig {
    pub profiles: [ButtonProfile; 3],
}

impl Default for InputConfig {
    fn default() -> (c: Self)
        ensures
            forall|i: int| 0 <= i < 3 ==> is_default_profile(#[trigger] c.profiles@[i]),
    {
        Self { profiles: [ButtonProfile::default(), ButtonProfile::default(), ButtonProfile::default()] }
    }
}

} // verus!
