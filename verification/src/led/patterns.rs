use vstd::prelude::*;

use crate::led::builder::{fits, spec_fade_frames, spec_level_frames, LedSequenceBuilder, Segment};
use crate::led::{LedProfile, TICK_MS, VP_LED_PWM_CYCLE};

verus! {

/// Frame count of the stock profiles' buffers.
pub const PROFILE_FRAMES: usize = 1024;

/// A played-once profile whose frames are `frames` followed by one dark frame.
pub open spec fn is_once_profile(p: LedProfile<1024>, frames: Seq<u32>) -> bool {
    &&& !p.is_loop
    &&& p.len == frames.len() + 1
    &&& p.data@.subrange(0, p.len as int) == frames.push(0)
    &&& forall|k: int| p.len <= k < 1024 ==> p.data@[k] == 0
}

/// A looping profile whose frames are exactly `frames`.
pub open spec fn is_loop_profile(p: LedProfile<1024>, frames: Seq<u32>) -> bool {
    &&& p.is_loop
    &&& p.len == frames.len()
    &&& p.data@.subrange(0, p.len as int) == frames
    &&& forall|k: int| p.len <= k < 1024 ==> p.data@[k] == 0
}

/// Played once when a link comes up: a slow rise to half brightness and a
/// longer fade out.
pub fn connected() -> (p: LedProfile<1024>)
    ensures
        is_once_profile(
            p,
            spec_fade_frames(0, 128, 30, VP_LED_PWM_CYCLE) + spec_fade_frames(
                128,
                0,
                80,
                VP_LED_PWM_CYCLE,
            ),
        ),
{
    let b = LedSequenceBuilder::<1024>::new();
    assert(fits(b@.len() as int, 1024, 300)) by {
        assert((300usize / TICK_MS) * (300usize / TICK_MS) * 255 <= usize::MAX);
    }
    let b = b.apply(Segment::Fade(0, 128, 300));
    assert(b@.len() == 30);
    assert(fits(b@.len() as int, 1024, 800)) by {
        assert((800usize / TICK_MS) * (800usize / TICK_MS) * 255 <= usize::MAX);
    }
    let b = b.apply(Segment::Fade(128, 0, 800));
    assert(b@.len() == 110);
    let (len, data) = b.finish();
    LedProfile { data, len, is_loop: false }
}

/// Looped while charging: breathe at a fifth of full brightness, then rest.
pub fn charging() -> (p: LedProfile<1024>)
    ensures
        is_loop_profile(
            p,
            spec_fade_frames(0, 51, 150, VP_LED_PWM_CYCLE) + spec_fade_frames(
                51,
                0,
                150,
                VP_LED_PWM_CYCLE,
            ) + spec_level_frames(0, 300, VP_LED_PWM_CYCLE),
        ),
{
    let b = LedSequenceBuilder::<1024>::new();
    assert(fits(b@.len() as int, 1024, 1500)) by {
        assert((1500usize / TICK_MS) * (1500usize / TICK_MS) * 255 <= usize::MAX);
    }
    let b = b.apply(Segment::Fade(0, 51, 1500));
    assert(b@.len() == 150);
    assert(fits(b@.len() as int, 1024, 1500)) by {
        assert((1500usize / TICK_MS) * (1500usize / TICK_MS) * 255 <= usize::MAX);
    }
    let b = b.apply(Segment::Fade(51, 0, 1500));
    assert(b@.len() == 300);
    assert(fits(b@.len() as int, 1024, 3000)) by {
        assert((3000usize / TICK_MS) * (3000usize / TICK_MS) * 255 <= usize::MAX);
    }
    let b = b.apply(Segment::Level(0, 3000));
    assert(b@.len() == 600);
    let (len, data) = b.finish_loop();
    LedProfile { data, len, is_loop: true }
}

/// Looped on low battery: a double blink, then a long pause.
pub fn low_battery() -> (p: LedProfile<1024>)
    ensures
        is_loop_profile(
            p,
            spec_level_frames(102, 15, VP_LED_PWM_CYCLE) + spec_level_frames(0, 15, VP_LED_PWM_CYCLE)
                + spec_level_frames(102, 15, VP_LED_PWM_CYCLE) + spec_level_frames(
                0,
                500,
                VP_LED_PWM_CYCLE,
            ),
        ),
{
    let b = LedSequenceBuilder::<1024>::new();
    assert(fits(b@.len() as int, 1024, 150)) by {
        assert((150usize / TICK_MS) * (150usize / TICK_MS) * 255 <= usize::MAX);
    }
    let b = b.apply(Segment::Level(102, 150));
    assert(b@.len() == 15);
    assert(fits(b@.len() as int, 1024, 150)) by {
        assert((150usize / TICK_MS) * (150usize / TICK_MS) * 255 <= usize::MAX);
    }
    let b = b.apply(Segment::Level(0, 150));
    assert(b@.len() == 30);
    assert(fits(b@.len() as int, 1024, 150)) by {
        assert((150usize / TICK_MS) * (150usize / TICK_MS) * 255 <= usize::MAX);
    }
    let b = b.apply(Segment::Level(102, 150));
    assert(b@.len() == 45);
    assert(fits(b@.len() as int, 1024, 5000)) by {
        assert((5000usize / TICK_MS) * (5000usize / TICK_MS) * 255 <= usize::MAX);
    }
    let b = b.apply(Segment::Level(0, 5000));
    assert(b@.len() == 545);
    let (len, data) = b.finish_loop();
    LedProfile { data, len, is_loop: true }
}

/// Played once on a switch to BLE mode: three soft pulses.
pub fn mode_ble() -> (p: LedProfile<1024>)
    ensures
        is_once_profile(
            p,
            spec_fade_frames(0, 153, 20, VP_LED_PWM_CYCLE) + spec_fade_frames(
                153,
                0,
                20,
                VP_LED_PWM_CYCLE,
            ) + spec_fade_frames(0, 153, 20, VP_LED_PWM_CYCLE) + spec_fade_frames(
                153,
                0,
                20,
                VP_LED_PWM_CYCLE,
            ) + spec_fade_frames(0, 153, 20, VP_LED_PWM_CYCLE) + spec_fade_frames(
                153,
                0,
                20,
                VP_LED_PWM_CYCLE,
            ),
        ),
{
    let b = LedSequenceBuilder::<1024>::new();
    assert(fits(b@.len() as int, 1024, 200)) by {
        assert((200usize / TICK_MS) * (200usize / TICK_MS) * 255 <= usize::MAX);
    }
    let b = b.apply(Segment::Fade(0, 153, 200));
    assert(b@.len() == 20);
    assert(fits(b@.len() as int, 1024, 200)) by {
        assert((200usize / TICK_MS) * (200usize / TICK_MS) * 255 <= usize::MAX);
    }
    let b = b.apply(Segment::Fade(153, 0, 200));
    assert(b@.len() == 40);
    assert(fits(b@.len() as int, 1024, 200)) by {
        assert((200usize / TICK_MS) * (200usize / TICK_MS) * 255 <= usize::MAX);
    }
    let b = b.apply(Segment::Fade(0, 153, 200));
    assert(b@.len() == 60);
    assert(fits(b@.len() as int, 1024, 200)) by {
        assert((200usize / TICK_MS) * (200usize / TICK_MS) * 255 <= usize::MAX);
    }
    let b = b.apply(Segment::Fade(153, 0, 200));
    assert(b@.len() == 80);
    assert(fits(b@.len() as int, 1024, 200)) by {
        assert((200usize / TICK_MS) * (200usize / TICK_MS) * 255 <= usize::MAX);
    }
    let b = b.apply(Segment::Fade(0, 153, 200));
    assert(b@.len() == 100);
    assert(fits(b@.len() as int, 1024, 200)) by {
        assert((200usize / TICK_MS) * (200usize / TICK_MS) * 255 <= usize::MAX);
    }
    let b = b.apply(Segment::Fade(153, 0, 200));
    assert(b@.len() == 120);
    let (len, data) = b.finish();
    LedProfile { data, len, is_loop: false }
}

/// Played once on a switch to 2.4 GHz mode: three hard blinks.
pub fn mode_2g4() -> (p: LedProfile<1024>)
    ensures
        is_once_profile(
            p,
            spec_level_frames(204, 15, VP_LED_PWM_CYCLE) + spec_level_frames(0, 15, VP_LED_PWM_CYCLE)
                + spec_level_frames(204, 15, VP_LED_PWM_CYCLE) + spec_level_frames(
                0,
                15,
                VP_LED_PWM_CYCLE,
            ) + spec_level_frames(204, 15, VP_LED_PWM_CYCLE) + spec_level_frames(
                0,
                15,
                VP_LED_PWM_CYCLE,
            ),
        ),
{
    let b = LedSequenceBuilder::<1024>::new();
    assert(fits(b@.len() as int, 1024, 150)) by {
        assert((150usize / TICK_MS) * (150usize / TICK_MS) * 255 <= usize::MAX);
    }
    let b = b.apply(Segment::Level(204, 150));
    assert(b@.len() == 15);
    assert(fits(b@.len() as int, 1024, 150)) by {
        assert((150usize / TICK_MS) * (150usize / TICK_MS) * 255 <= usize::MAX);
    }
    let b = b.apply(Segment::Level(0, 150));
    assert(b@.len() == 30);
    assert(fits(b@.len() as int, 1024, 150)) by {
        assert((150usize / TICK_MS) * (150usize / TICK_MS) * 255 <= usize::MAX);
    }
    let b = b.apply(Segment::Level(204, 150));
    assert(b@.len() == 45);
    assert(fits(b@.len() as int, 1024, 150)) by {
        assert((150usize / TICK_MS) * (150usize / TICK_MS) * 255 <= usize::MAX);
    }
    let b = b.apply(Segment::Level(0, 150));
    assert(b@.len() == 60);
    assert(fits(b@.len() as int, 1024, 150)) by {
        assert((150usize / TICK_MS) * (150usize / TICK_MS) * 255 <= usize::MAX);
    }
    let b = b.apply(Segment::Level(204, 150));
    assert(b@.len() == 75);
    assert(fits(b@.len() as int, 1024, 150)) by {
        assert((150usize / TICK_MS) * (150usize / TICK_MS) * 255 <= usize::MAX);
    }
    let b = b.apply(Segment::Level(0, 150));
    assert(b@.len() == 90);
    let (len, data) = b.finish();
    LedProfile { data, len, is_loop: false }
}

} // verus!
