use vstd::prelude::*;

use crate::input::config::{ButtonFunction, ButtonMapping, ButtonProfile};

verus! {

/// Consecutive equal samples needed before a new level is accepted.
pub const DEBOUNCE_STABLE_TICKS: u8 = 5;

/// Physical buttons: 0 context, 1 action, 2 up, 3 down, 4 primary,
/// 5 secondary.
pub const BUTTON_COUNT: usize = 6;

/// Logical input state after mapping.
#[derive(Debug, Clone, Copy, PartialEq, Eq, Structural)]
pub struct InputStatus {
    pub left: bool,
    pub right: bool,
    pub middle: bool,
    pub action: bool,
    pub laser: bool,
    pub wheel_delta: i8,
}

impl Default for InputStatus {
    fn default() -> (s: Self)
        ensures
            s == (InputStatus {
                left: false,
                right: false,
                middle: false,
                action: false,
                laser: false,
                wheel_delta: 0,
            }),
    {
        InputStatus {
            left: false,
            right: false,
            middle: false,
            action: false,
            laser: false,
            wheel_delta: 0,
        }
    }
}

/// A debounced level that became stable.
#[derive(Clone, Copy, Debug, PartialEq, Eq, Structural)]
pub struct StableTransition {
    pub input_id: u8,
    pub active: bool,
    pub changed: bool,
}

#[derive(Clone, Copy, Debug, PartialEq, Eq, Structural)]
pub enum DebounceTickOutcome {
    Idle,
    StillDebouncing,
    Stabilized(StableTransition),
}

/// Abstract state of one debounced input.
#[derive(Clone, Copy, Debug, PartialEq, Eq, Structural)]
pub struct DebounceView {
    pub input_id: u8,
    pub stable: bool,
    pub candidate: bool,
    pub ticks: u8,
    pub debouncing: bool,
}

/// Counts one more sample of `observed` against the candidate level.
pub open spec fn spec_track(v: DebounceView, observed: bool) -> DebounceView {
    if observed == v.candidate {
        DebounceView {
            ticks: if v.ticks == 255 {
                255u8
            } else {
                (v.ticks + 1) as u8
            },
            ..v
        }
    } else {
        DebounceView { candidate: observed, ticks: 0, ..v }
    }
}

/// One debounce tick: the new state and what it reports.
///
/// An input at rest ignores samples equal to its stable level. Any other
/// sample starts or continues debouncing; once the candidate level has been
/// seen on `DEBOUNCE_STABLE_TICKS` samples in a row it becomes the stable
/// level.
pub open spec fn spec_sample(v: DebounceView, observed: bool) -> (DebounceView, DebounceTickOutcome) {
    if !v.debouncing && observed == v.stable {
        (v, DebounceTickOutcome::Idle)
    } else {
        let v1 = if !v.debouncing {
            DebounceView { candidate: observed, ticks: 0, debouncing: true, ..v }
        } else {
            v
        };
        let v2 = spec_track(v1, observed);
        if v2.ticks < DEBOUNCE_STABLE_TICKS {
            (v2, DebounceTickOutcome::StillDebouncing)
        } else {
            (
                DebounceView { stable: v2.candidate, debouncing: false, ..v2 },
                DebounceTickOutcome::Stabilized(
                    StableTransition {
                        input_id: v.input_id,
                        active: v2.candidate,
                        changed: v2.stable != v2.candidate,
                    },
                ),
            )
        }
    }
}

/// The tick changed the stable level.
/// The debounce states after an edge on button `button_id`: that button
/// starts debouncing towards `active`; an unknown button changes nothing.
pub open spec fn spec_button_edge(inputs: Seq<DebounceView>, button_id: u8, active: bool) -> Seq<
    DebounceView,
> {
    if button_id < 6 {
        inputs.update(
            button_id as int,
            DebounceView { candidate: active, ticks: 0, debouncing: true, ..inputs[button_id as int] },
        )
    } else {
        inputs
    }
}

pub open spec fn reports_change(o: DebounceTickOutcome) -> bool {
    match o {
        DebounceTickOutcome::Stabilized(t) => t.changed,
        _ => false,
    }
}

/// A two-state input (a button) with software debouncing.
#[derive(Clone, Copy, Debug, PartialEq, Eq)]
pub struct DebouncedTwoStateInput {
    input_id: u8,
    stable_active: bool,
    candidate_active: bool,
    stable_ticks: u8,
    debouncing: bool,
}

impl View for DebouncedTwoStateInput {
    type V = DebounceView;

    closed spec fn view(&self) -> DebounceView {
        DebounceView {
            input_id: self.input_id,
            stable: self.stable_active,
            candidate: self.candidate_active,
            ticks: self.stable_ticks,
            debouncing: self.debouncing,
        }
    }
}

impl DebouncedTwoStateInput {
    pub fn new(input_id: u8) -> (d: Self)
        ensures
            d@ == (DebounceView {
                input_id,
                stable: false,
                candidate: false,
                ticks: 0,
                debouncing: false,
            }),
    {
        Self {
            input_id,
            stable_active: false,
            candidate_active: false,
            stable_ticks: 0,
            debouncing: false,
        }
    }

    pub fn input_id(&self) -> (id: u8)
        ensures
            id == self@.input_id,
    {
        self.input_id
    }

    pub fn stable_active(&self) -> (a: bool)
        ensures
            a == self@.stable,
    {
        self.stable_active
    }

    /// Takes the level read from the pin as the stable level.
    pub fn sync_from_gpio(&mut self, active: bool)
        ensures
            final(self)@ == (DebounceView {
                stable: active,
                candidate: active,
                ticks: 0,
                debouncing: false,
                ..old(self)@
            }),
    {
        self.stable_active = active;
        self.candidate_active = active;
        self.stable_ticks = 0;
        self.debouncing = false;
    }

    /// An edge was seen: debounce towards `observed_active`.
    pub fn begin_debounce(&mut self, observed_active: bool)
        ensures
            final(self)@ == (DebounceView {
                candidate: observed_active,
                ticks: 0,
                debouncing: true,
                ..old(self)@
            }),
    {
        self.candidate_active = observed_active;
        self.stable_ticks = 0;
        self.debouncing = true;
    }

    pub fn sample(&mut self, observed: bool) -> (outcome: DebounceTickOutcome)
        ensures
            (final(self)@, outcome) == spec_sample(old(self)@, observed),
    {
        if !self.debouncing {
            if observed == self.stable_active {
                return DebounceTickOutcome::Idle;
            }
            self.begin_debounce(observed);
        }

        self.track_candidate(observed);

        if !self.candidate_is_stable() {
            return DebounceTickOutcome::StillDebouncing;
        }

        self.accept_candidate()
    }

    fn track_candidate(&mut self, observed: bool)
        ensures
            final(self)@ == spec_track(old(self)@, observed),
    {
        if observed == self.candidate_active {
            self.stable_ticks = self.stable_ticks.saturating_add(1);
        } else {
            self.candidate_active = observed;
            self.stable_ticks = 0;
        }
    }

    fn candidate_is_stable(&self) -> (b: bool)
        ensures
            b == (self@.ticks >= DEBOUNCE_STABLE_TICKS),
    {
        self.stable_ticks >= DEBOUNCE_STABLE_TICKS
    }

    fn accept_candidate(&mut self) -> (outcome: DebounceTickOutcome)
        ensures
            final(self)@ == (DebounceView {
                stable: old(self)@.candidate,
                debouncing: false,
                ..old(self)@
            }),
            outcome == DebounceTickOutcome::Stabilized(
                StableTransition {
                    input_id: old(self)@.input_id,
                    active: old(self)@.candidate,
                    changed: old(self)@.stable != old(self)@.candidate,
                },
            ),
    {
        self.debouncing = false;
        if self.stable_active != self.candidate_active {
            self.stable_active = self.candidate_active;
            DebounceTickOutcome::Stabilized(
                StableTransition { input_id: self.input_id, active: self.stable_active, changed: true },
            )
        } else {
            DebounceTickOutcome::Stabilized(
                StableTransition {
                    input_id: self.input_id,
                    active: self.stable_active,
                    changed: false,
                },
            )
        }
    }
}

/// The level a debounced input reports as stable is always a level it was
/// sampled at.
pub proof fn lemma_stabilized_level_was_observed(v: DebounceView, observed: bool)
    ensures
        spec_sample(v, observed).1 matches DebounceTickOutcome::Stabilized(t) ==> t.active
            == observed && spec_sample(v, observed).0.stable == observed,
{
}

/// From rest, a new level held on the pin is accepted on exactly the fifth
/// sample, and reported as a change.
pub proof fn lemma_level_accepted_after_five_samples(v: DebounceView, level: bool)
    requires
        !v.debouncing,
        v.stable != level,
    ensures
        ({
            let (v1, o1) = spec_sample(v, level);
            let (v2, o2) = spec_sample(v1, level);
            let (v3, o3) = spec_sample(v2, level);
            let (v4, o4) = spec_sample(v3, level);
            let (v5, o5) = spec_sample(v4, level);
            &&& o1 == DebounceTickOutcome::StillDebouncing
            &&& o2 == DebounceTickOutcome::StillDebouncing
            &&& o3 == DebounceTickOutcome::StillDebouncing
            &&& o4 == DebounceTickOutcome::StillDebouncing
            &&& o5 == DebounceTickOutcome::Stabilized(
                StableTransition { input_id: v.input_id, active: level, changed: true },
            )
            &&& v5.stable == level
            &&& !v5.debouncing
        }),
{
}

/// Contribution of one function to the wheel.
pub open spec fn fn_wheel(f: ButtonFunction) -> int {
    match f {
        ButtonFunction::ScrollUp => 1,
        ButtonFunction::ScrollDown => -1,
        _ => 0,
    }
}

/// Wheel contribution of the first `j` functions of a mapping.
pub open spec fn mapping_wheel(fns: Seq<ButtonFunction>, j: int) -> int
    decreases j,
{
    if j <= 0 {
        0
    } else {
        mapping_wheel(fns, j - 1) + fn_wheel(fns[j - 1])
    }
}

/// Wheel steps produced by the first `i` buttons.
pub open spec fn buttons_wheel(pressed: Seq<bool>, maps: Seq<ButtonMapping>, i: int) -> int
    decreases i,
{
    if i <= 0 {
        0
    } else {
        buttons_wheel(pressed, maps, i - 1) + (if pressed[i - 1] {
            mapping_wheel(maps[i - 1].fns@, 4)
        } else {
            0
        })
    }
}

/// Some pressed button maps to `f`.
pub open spec fn fn_held(pressed: Seq<bool>, maps: Seq<ButtonMapping>, f: ButtonFunction) -> bool {
    exists|i: int, j: int|
        0 <= i < 6 && 0 <= j < 4 && pressed[i] && #[trigger] maps[i].fns@[j] == f
}

/// The logical state for the given pressed buttons and mappings.
pub open spec fn spec_mapped_status(pressed: Seq<bool>, maps: Seq<ButtonMapping>) -> InputStatus {
    InputStatus {
        left: fn_held(pressed, maps, ButtonFunction::Left),
        right: fn_held(pressed, maps, ButtonFunction::Right),
        middle: fn_held(pressed, maps, ButtonFunction::Middle),
        action: fn_held(pressed, maps, ButtonFunction::Action),
        laser: fn_held(pressed, maps, ButtonFunction::Laser),
        wheel_delta: buttons_wheel(pressed, maps, 6) as i8,
    }
}

/// Each logical function is held exactly when some pressed button maps it:
/// left, right, middle, action and laser each follow their own function and
/// no other.
pub proof fn lemma_mapped_functions(pressed: Seq<bool>, maps: Seq<ButtonMapping>)
    ensures
        ({
            let s = spec_mapped_status(pressed, maps);
            &&& s.left == (exists|i: int, j: int|
                0 <= i < 6 && 0 <= j < 4 && pressed[i] && #[trigger] maps[i].fns@[j]
                    == ButtonFunction::Left)
            &&& s.right == (exists|i: int, j: int|
                0 <= i < 6 && 0 <= j < 4 && pressed[i] && #[trigger] maps[i].fns@[j]
                    == ButtonFunction::Right)
            &&& s.middle == (exists|i: int, j: int|
                0 <= i < 6 && 0 <= j < 4 && pressed[i] && #[trigger] maps[i].fns@[j]
                    == ButtonFunction::Middle)
            &&& s.action == (exists|i: int, j: int|
                0 <= i < 6 && 0 <= j < 4 && pressed[i] && #[trigger] maps[i].fns@[j]
                    == ButtonFunction::Action)
            &&& s.laser == (exists|i: int, j: int|
                0 <= i < 6 && 0 <= j < 4 && pressed[i] && #[trigger] maps[i].fns@[j]
                    == ButtonFunction::Laser)
        }),
{
}

proof fn lemma_mapping_wheel_bounds(fns: Seq<ButtonFunction>, j: int)
    requires
        0 <= j,
    ensures
        -j <= mapping_wheel(fns, j) <= j,
    decreases j,
{
    if j > 0 {
        lemma_mapping_wheel_bounds(fns, j - 1);
    }
}

proof fn lemma_buttons_wheel_bounds(pressed: Seq<bool>, maps: Seq<ButtonMapping>, i: int)
    requires
        0 <= i,
    ensures
        -4 * i <= buttons_wheel(pressed, maps, i) <= 4 * i,
    decreases i,
{
    if i > 0 {
        lemma_buttons_wheel_bounds(pressed, maps, i - 1);
        lemma_mapping_wheel_bounds(maps[i - 1].fns@, 4);
    }
}

/// Debounces the six buttons and maps them to logical mouse functions.
pub struct InputManager {
    two_state_inputs: [DebouncedTwoStateInput; 6],
    active_mapping: [ButtonMapping; 6],
    pending_wheel: i8,
}

impl InputManager {
    /// Abstract state of each debounced button.
    pub closed spec fn spec_inputs(&self) -> Seq<DebounceView> {
        Seq::new(6, |i: int| self.two_state_inputs@[i]@)
    }

    /// There is one debounced input for each of the six buttons.
    pub proof fn lemma_six_inputs(&self)
        ensures
            self.spec_inputs().len() == 6,
    {
    }

    pub closed spec fn spec_mapping(&self) -> Seq<ButtonMapping> {
        self.active_mapping@
    }

    /// Which buttons are stably pressed.
    pub open spec fn spec_pressed(&self) -> Seq<bool> {
        Seq::new(6, |i: int| self.spec_inputs()[i].stable)
    }

    pub closed spec fn wf(&self) -> bool {
        &&& self.pending_wheel == 0
        &&& forall|i: int| 0 <= i < 6 ==> (#[trigger] self.two_state_inputs@[i])@.input_id == i
    }

    pub open spec fn spec_debouncing(&self) -> bool {
        exists|i: int| 0 <= i < 6 && (#[trigger] self.spec_inputs()[i]).debouncing
    }

    /// All buttons released and at rest, every mapping empty.
    pub fn new() -> (m: Self)
        ensures
            m.wf(),
            forall|i: int|
                0 <= i < 6 ==> #[trigger] m.spec_inputs()[i] == (DebounceView {
                    input_id: i as u8,
                    stable: false,
                    candidate: false,
                    ticks: 0,
                    debouncing: false,
                }),
            forall|i: int, j: int|
                0 <= i < 6 && 0 <= j < 4 ==> #[trigger] m.spec_mapping()[i].fns@[j]
                    == ButtonFunction::Unassigned,
    {
        let unmapped = ButtonMapping::new([ButtonFunction::Unassigned; 4]);
        let m = Self {
            two_state_inputs: [
                DebouncedTwoStateInput::new(0),
                DebouncedTwoStateInput::new(1),
                DebouncedTwoStateInput::new(2),
                DebouncedTwoStateInput::new(3),
                DebouncedTwoStateInput::new(4),
                DebouncedTwoStateInput::new(5),
            ],
            active_mapping: [unmapped; 6],
            pending_wheel: 0,
        };
        m
    }

    /// Installs the mapping of `profile`, button by button.
    pub fn set_profile(&mut self, profile: &ButtonProfile)
        requires
            old(self).wf(),
        ensures
            final(self).wf(),
            final(self).spec_inputs() == old(self).spec_inputs(),
            final(self).spec_mapping() == seq![
                profile.context,
                profile.action,
                profile.up,
                profile.down,
                profile.primary,
                profile.secondary,
            ],
    {
        self.active_mapping[0] = profile.context;
        self.active_mapping[1] = profile.action;
        self.active_mapping[2] = profile.up;
        self.active_mapping[3] = profile.down;
        self.active_mapping[4] = profile.primary;
        self.active_mapping[5] = profile.secondary;
        assert(self.spec_inputs() =~= old(self).spec_inputs());
        assert(self.spec_mapping() =~= seq![
            profile.context,
            profile.action,
            profile.up,
            profile.down,
            profile.primary,
            profile.secondary,
        ]);
    }

    /// Takes the levels read from the six pins as the stable state, with no
    /// debouncing in progress. Returns the empty status.
    pub fn sync_snapshot(&mut self, levels: [bool; 6]) -> (s: InputStatus)
        requires
            old(self).wf(),
        ensures
            final(self).wf(),
            final(self).spec_mapping() == old(self).spec_mapping(),
            forall|i: int|
                0 <= i < 6 ==> #[trigger] final(self).spec_inputs()[i] == (DebounceView {
                    input_id: i as u8,
                    stable: levels@[i],
                    candidate: levels@[i],
                    ticks: 0,
                    debouncing: false,
                }),
            s == (InputStatus {
                left: false,
                right: false,
                middle: false,
                action: false,
                laser: false,
                wheel_delta: 0,
            }),
    {
        let mut k: usize = 0;
        while k < 6
            invariant
                0 <= k <= 6,
                self.wf(),
                self.spec_mapping() == old(self).spec_mapping(),
                forall|i: int|
                    0 <= i < k ==> #[trigger] self.spec_inputs()[i] == (DebounceView {
                        input_id: i as u8,
                        stable: levels@[i],
                        candidate: levels@[i],
                        ticks: 0,
                        debouncing: false,
                    }),
            decreases 6 - k,
        {
            let ghost prev = self.spec_inputs();
            let mut input = self.two_state_inputs[k];
            input.sync_from_gpio(levels[k]);
            self.two_state_inputs[k] = input;
            assert(self.spec_inputs() =~= prev.update(k as int, input@));
            k = k + 1;
        }
        self.pending_wheel = 0;
        InputStatus {
            left: false,
            right: false,
            middle: false,
            action: false,
            laser: false,
            wheel_delta: 0,
        }
    }

    /// Interrupts are armed by the board layer; nothing is kept here.
    pub fn enable_interrupts(&self) {
    }

    /// An edge on button `button_id`: starts debouncing it. Returns whether the
    /// debounce timer has to run, which is never the case for an unknown
    /// button.
    pub fn on_button_exti(&mut self, button_id: u8, active: bool) -> (start_timer: bool)
        requires
            old(self).wf(),
        ensures
            final(self).wf(),
            final(self).spec_mapping() == old(self).spec_mapping(),
            start_timer == (button_id < 6),
            final(self).spec_inputs() == spec_button_edge(old(self).spec_inputs(), button_id, active),
    {
        if button_id as usize >= BUTTON_COUNT {
            return false;
        }
        let idx = button_id as usize;
        let mut input = self.two_state_inputs[idx];
        input.begin_debounce(active);
        self.two_state_inputs[idx] = input;
        proof {
            assert(self.spec_inputs() =~= old(self).spec_inputs().update(
                button_id as int,
                DebounceView {
                    candidate: active,
                    ticks: 0,
                    debouncing: true,
                    ..old(self).spec_inputs()[button_id as int]
                },
            ));
        }
        true
    }

    /// One debounce tick with the levels now read from the six pins. Returns
    /// whether any button's stable level changed.
    pub fn on_debounce_tick(&mut self, levels: [bool; 6]) -> (changed: bool)
        requires
            old(self).wf(),
        ensures
            final(self).wf(),
            final(self).spec_mapping() == old(self).spec_mapping(),
            forall|i: int|
                0 <= i < 6 ==> #[trigger] final(self).spec_inputs()[i] == spec_sample(
                    old(self).spec_inputs()[i],
                    levels@[i],
                ).0,
            changed == exists|i: int|
                0 <= i < 6 && reports_change(
                    #[trigger] spec_sample(old(self).spec_inputs()[i], levels@[i]).1,
                ),
    {
        let mut changed = false;
        let mut k: usize = 0;
        while k < 6
            invariant
                0 <= k <= 6,
                self.wf(),
                self.spec_mapping() == old(self).spec_mapping(),
                forall|i: int|
                    0 <= i < k ==> #[trigger] self.spec_inputs()[i] == spec_sample(
                        old(self).spec_inputs()[i],
                        levels@[i],
                    ).0,
                forall|i: int| k <= i < 6 ==> #[trigger] self.spec_inputs()[i] == old(
                    self,
                ).spec_inputs()[i],
                changed == exists|i: int|
                    0 <= i < k && reports_change(
                        #[trigger] spec_sample(old(self).spec_inputs()[i], levels@[i]).1,
                    ),
            decreases 6 - k,
        {
            let ghost prev = self.spec_inputs();
            let mut input = self.two_state_inputs[k];
            assert(input@ == prev[k as int]);
            assert(input@ == old(self).spec_inputs()[k as int]);
            let outcome = input.sample(levels[k]);
            self.two_state_inputs[k] = input;
            assert(self.spec_inputs() =~= prev.update(k as int, input@));
            match outcome {
                DebounceTickOutcome::Stabilized(t) => {
                    if t.changed {
                        changed = true;
                    }
                },
                _ => {},
            }
            proof {
                assert(spec_sample(old(self).spec_inputs()[k as int], levels@[k as int]).1
                    == outcome);
            }
            k = k + 1;
        }
        changed
    }

    /// Some button is still being debounced, so the debounce timer must keep
    /// running.
    pub fn is_debouncing(&self) -> (b: bool)
        ensures
            b == self.spec_debouncing(),
    {
        let mut k: usize = 0;
        while k < 6
            invariant
                0 <= k <= 6,
                forall|i: int| 0 <= i < k ==> !(#[trigger] self.spec_inputs()[i]).debouncing,
            decreases 6 - k,
        {
            if self.two_state_inputs[k].debouncing {
                assert(self.spec_inputs()[k as int].debouncing);
                return true;
            }
            k = k + 1;
        }
        false
    }

    /// Maps the stably pressed buttons to logical functions. The wheel moves
    /// one step per scroll-up and back one per scroll-down function held.
    pub fn get_current_input(&mut self) -> (s: InputStatus)
        requires
            old(self).wf(),
        ensures
            *final(self) == *old(self),
            s == spec_mapped_status(old(self).spec_pressed(), old(self).spec_mapping()),
            s.middle == (exists|i: int, j: int|
                0 <= i < 6 && 0 <= j < 4 && old(self).spec_pressed()[i] && #[trigger] old(
                    self,
                ).spec_mapping()[i].fns@[j] == ButtonFunction::Middle),
            s.action == (exists|i: int, j: int|
                0 <= i < 6 && 0 <= j < 4 && old(self).spec_pressed()[i] && #[trigger] old(
                    self,
                ).spec_mapping()[i].fns@[j] == ButtonFunction::Action),
    {
        proof {
            lemma_mapped_functions(old(self).spec_pressed(), old(self).spec_mapping());
        }
        let ghost pressed = self.spec_pressed();
        let ghost maps = self.spec_mapping();
        let mut left = false;
        let mut right = false;
        let mut middle = false;
        let mut action = false;
        let mut laser = false;
        let mut wheel: i8 = self.pending_wheel;

        let mut p: usize = 0;
        while p < 6
            invariant
                0 <= p <= 6,
                self == old(self),
                self.wf(),
                pressed == self.spec_pressed(),
                maps == self.spec_mapping(),
                wheel == buttons_wheel(pressed, maps, p as int),
                left == (exists|i: int, j: int|
                    0 <= i < p && 0 <= j < 4 && pressed[i] && #[trigger] maps[i].fns@[j]
                        == ButtonFunction::Left),
                right == (exists|i: int, j: int|
                    0 <= i < p && 0 <= j < 4 && pressed[i] && #[trigger] maps[i].fns@[j]
                        == ButtonFunction::Right),
                middle == (exists|i: int, j: int|
                    0 <= i < p && 0 <= j < 4 && pressed[i] && #[trigger] maps[i].fns@[j]
                        == ButtonFunction::Middle),
                action == (exists|i: int, j: int|
                    0 <= i < p && 0 <= j < 4 && pressed[i] && #[trigger] maps[i].fns@[j]
                        == ButtonFunction::Action),
                laser == (exists|i: int, j: int|
                    0 <= i < p && 0 <= j < 4 && pressed[i] && #[trigger] maps[i].fns@[j]
                        == ButtonFunction::Laser),
            decreases 6 - p,
        {
            proof {
                lemma_buttons_wheel_bounds(pressed, maps, p as int);
            }
            if self.two_state_inputs[p].stable_active {
                assert(pressed[p as int]);
                let mapping = self.active_mapping[p];
                let ghost fns = maps[p as int].fns@;
                assert(mapping.fns@ == fns);
                let ghost base: int = wheel as int;
                let mut q: usize = 0;
                while q < 4
                    invariant
                        0 <= q <= 4,
                        0 <= p < 6,
                        pressed[p as int],
                        mapping.fns@ == fns,
                        fns == maps[p as int].fns@,
                        -4 * (p as int) <= base <= 4 * (p as int),
                        wheel == base + mapping_wheel(fns, q as int),
                        left == ((exists|i: int, j: int|
                            0 <= i < p && 0 <= j < 4 && pressed[i] && #[trigger] maps[i].fns@[j]
                                == ButtonFunction::Left) || (exists|j: int|
                            0 <= j < q && #[trigger] fns[j] == ButtonFunction::Left)),
                        right == ((exists|i: int, j: int|
                            0 <= i < p && 0 <= j < 4 && pressed[i] && #[trigger] maps[i].fns@[j]
                                == ButtonFunction::Right) || (exists|j: int|
                            0 <= j < q && #[trigger] fns[j] == ButtonFunction::Right)),
                        middle == ((exists|i: int, j: int|
                            0 <= i < p && 0 <= j < 4 && pressed[i] && #[trigger] maps[i].fns@[j]
                                == ButtonFunction::Middle) || (exists|j: int|
                            0 <= j < q && #[trigger] fns[j] == ButtonFunction::Middle)),
                        action == ((exists|i: int, j: int|
                            0 <= i < p && 0 <= j < 4 && pressed[i] && #[trigger] maps[i].fns@[j]
                                == ButtonFunction::Action) || (exists|j: int|
                            0 <= j < q && #[trigger] fns[j] == ButtonFunction::Action)),
                        laser == ((exists|i: int, j: int|
                            0 <= i < p && 0 <= j < 4 && pressed[i] && #[trigger] maps[i].fns@[j]
                                == ButtonFunction::Laser) || (exists|j: int|
                            0 <= j < q && #[trigger] fns[j] == ButtonFunction::Laser)),
                    decreases 4 - q,
                {
                    proof {
                        lemma_mapping_wheel_bounds(fns, q as int);
                    }
                    let f = mapping.fns[q];
                    match f {
                        ButtonFunction::Unassigned => {},
                        ButtonFunction::Left => {
                            left = true;
                        },
                        ButtonFunction::Right => {
                            right = true;
                        },
                        ButtonFunction::Middle => {
                            middle = true;
                        },
                        ButtonFunction::Action => {
                            action = true;
                        },
                        ButtonFunction::Laser => {
                            laser = true;
                        },
                        ButtonFunction::ScrollUp => {
                            wheel = wheel + 1;
                        },
                        ButtonFunction::ScrollDown => {
                            wheel = wheel - 1;
                        },
                    }
                    q = q + 1;
                }
                proof {
                    assert(wheel == buttons_wheel(pressed, maps, p + 1));
                }
            } else {
                assert(!pressed[p as int]);
            }
            p = p + 1;
        }
        proof {
            lemma_buttons_wheel_bounds(pressed, maps, 6);
        }
        InputStatus { left, right, middle, action, laser, wheel_delta: wheel }
    }
}

} // verus!
