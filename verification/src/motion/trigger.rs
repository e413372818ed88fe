use vstd::prelude::*;

verus! {

/// The buttons that can hold motion on.
#[derive(Clone, Copy, Debug, PartialEq, Eq, Structural)]
pub struct TriggerButtons {
    pub action: bool,
    pub middle: bool,
}

#[derive(Clone, Copy, Debug, PartialEq, Eq, Structural)]
pub enum SessionState {
    Idle,
    /// Held, waiting for the first sample, which becomes the centre.
    Calibrating,
    Active,
}

/// What the motion session does with an attitude sample.
#[derive(Clone, Copy, Debug, PartialEq, Eq, Structural)]
pub enum SampleStep {
    /// The sample is unusable: the output drops to rest.
    RestOutput,
    /// The sample becomes the centre; the output is at rest.
    Calibrate,
    /// The sample moves the pointer.
    Update,
    /// Motion is off: the output stays.
    Keep,
}

/// Whether the held buttons turn motion on: the action button always, the
/// middle button where the configuration lets it.
pub open spec fn spec_trigger_held(buttons: TriggerButtons, middle_triggers_motion: bool) -> bool {
    buttons.action || (buttons.middle && middle_triggers_motion)
}

/// Whether a sample of time `ts` is taken: while motion is on, when it is
/// valid and newer than the last one taken.
pub open spec fn spec_should_process(t: MotionTrigger, ts: u32, valid: bool) -> bool {
    t.state != SessionState::Idle && valid && t.last_sample_ts != Some(ts)
}

/// When motion is on and which sample it last took.
pub struct MotionTrigger {
    pub state: SessionState,
    pub last_sample_ts: Option<u32>,
}

impl MotionTrigger {
    pub fn new() -> (t: Self)
        ensures
            t.state == SessionState::Idle,
            t.last_sample_ts is None,
    {
        MotionTrigger { state: SessionState::Idle, last_sample_ts: None }
    }

    /// Follows the trigger buttons: pressing starts calibration, releasing
    /// ends motion and forgets the last sample. Returns whether motion is on
    /// and whether the output must drop to rest.
    pub fn update_trigger(&mut self, buttons: TriggerButtons, middle_triggers_motion: bool) -> (r: (bool, bool))
        ensures
            ({
                let held = spec_trigger_held(buttons, middle_triggers_motion);
                if old(self).state == SessionState::Idle && held {
                    *final(self) == MotionTrigger { state: SessionState::Calibrating, ..*old(self) }
                        && r.1
                } else if old(self).state != SessionState::Idle && !held {
                    *final(self) == MotionTrigger { state: SessionState::Idle, last_sample_ts: None }
                        && r.1
                } else {
                    *final(self) == *old(self) && !r.1
                }
            }),
            r.0 == (final(self).state != SessionState::Idle),
            r.0 == spec_trigger_held(buttons, middle_triggers_motion),
    {
        let active = buttons.action || (buttons.middle && middle_triggers_motion);
        let mut reset_output = false;
        match (self.state, active) {
            (SessionState::Idle, true) => {
                self.state = SessionState::Calibrating;
                reset_output = true;
            },
            (SessionState::Calibrating, false) | (SessionState::Active, false) => {
                self.state = SessionState::Idle;
                reset_output = true;
                self.last_sample_ts = None;
            },
            _ => {},
        }
        (self.state != SessionState::Idle, reset_output)
    }

    /// A sample is taken while motion is on, when it is valid and newer than
    /// the last one taken.
    pub fn should_process_sample(&self, latest_ts: u32, latest_valid: bool) -> (b: bool)
        ensures
            b == spec_should_process(*self, latest_ts, latest_valid),
    {
        let same = match self.last_sample_ts {
            Some(ts) => ts == latest_ts,
            None => false,
        };
        self.state != SessionState::Idle && latest_valid && !same
    }

    /// Takes the sample of time `timestamp`, valid or not: an invalid one
    /// rests the output; the first valid one after a press calibrates and
    /// starts motion; later ones move the pointer.
    pub fn begin_sample(&mut self, timestamp: u32, valid: bool) -> (step: SampleStep)
        ensures
            final(self).last_sample_ts == Some(timestamp),
            !valid ==> step == SampleStep::RestOutput && final(self).state == old(self).state,
            valid && old(self).state == SessionState::Calibrating ==> step == SampleStep::Calibrate
                && final(self).state == SessionState::Active,
            valid && old(self).state == SessionState::Active ==> step == SampleStep::Update
                && final(self).state == SessionState::Active,
            valid && old(self).state == SessionState::Idle ==> step == SampleStep::Keep
                && final(self).state == SessionState::Idle,
    {
        self.last_sample_ts = Some(timestamp);
        if !valid {
            return SampleStep::RestOutput;
        }
        match self.state {
            SessionState::Calibrating => {
                self.state = SessionState::Active;
                SampleStep::Calibrate
            },
            SessionState::Active => SampleStep::Update,
            SessionState::Idle => SampleStep::Keep,
        }
    }

    pub fn is_active(&self) -> (b: bool)
        ensures
            b == (self.state != SessionState::Idle),
    {
        self.state != SessionState::Idle
    }

    /// Motion off, no sample taken.
    pub fn reset(&mut self)
        ensures
            final(self).state == SessionState::Idle,
            final(self).last_sample_ts is None,
    {
        self.state = SessionState::Idle;
        self.last_sample_ts = None;
    }
}

/// A sample is never taken twice: after `begin_sample` at `ts` (which leaves
/// `last_sample_ts == Some(ts)`), a sample of the same time is not taken,
/// whatever its validity.
pub proof fn lemma_sample_taken_once(t: MotionTrigger, ts: u32, valid: bool)
    requires
        t.last_sample_ts == Some(ts),
    ensures
        !spec_should_process(t, ts, valid),
{
}

} // verus!
