//! The status LED: it shows the active Bluetooth profile by a number of blinks.

use vstd::prelude::*;

verus! {

/// How long the LED stays lit, and how long it stays dark after that, in each
/// blink.
pub const BLINK_MILLIS: u64 = 150;

/// One thing to do to show a profile. The LED is active-low.
#[derive(Clone, Copy, Debug, PartialEq, Eq)]
pub enum LedAction {
    /// Drive the pin low: the LED is on.
    SetLow,
    /// Drive the pin high: the LED is off.
    SetHigh,
    /// Let this much time pass.
    Wait { millis: u64 },
}

/// How far the current blink has come.
#[derive(Clone, Copy, Debug, PartialEq, Eq)]
pub enum BlinkPhase {
    /// No blink has begun.
    Rest,
    /// The LED was lit.
    Lit,
    /// The LED was lit for long enough.
    LitDone,
    /// The LED was put out.
    Dark,
}

/// The state of the LED: the profile shown last, and what is left to do to show
/// it.
#[derive(Clone, Copy, Debug, PartialEq, Eq)]
pub struct ProfileLed {
    pub last_profile: Option<u8>,
    pub blinks_left: usize,
    pub phase: BlinkPhase,
}

/// The actions of one blink.
pub open spec fn blink() -> Seq<LedAction> {
    seq![
        LedAction::SetLow,
        LedAction::Wait { millis: BLINK_MILLIS },
        LedAction::SetHigh,
        LedAction::Wait { millis: BLINK_MILLIS },
    ]
}

/// The actions of `n` blinks.
pub open spec fn blinks(n: nat) -> Seq<LedAction>
    decreases n,
{
    if n == 0 {
        Seq::empty()
    } else {
        blink() + blinks((n - 1) as nat)
    }
}

impl BlinkPhase {
    /// What is left of the current blink.
    pub open spec fn rest_of_blink(self) -> Seq<LedAction> {
        match self {
            BlinkPhase::Rest => Seq::empty(),
            BlinkPhase::Lit => blink().skip(1),
            BlinkPhase::LitDone => blink().skip(2),
            BlinkPhase::Dark => blink().skip(3),
        }
    }
}

impl ProfileLed {
    /// The actions that are left to do, in order.
    pub open spec fn pending(self) -> Seq<LedAction> {
        self.phase.rest_of_blink() + blinks(self.blinks_left as nat)
    }

    /// An LED that has shown no profile yet.
    pub fn new() -> (led: Self)
        ensures
            led.last_profile is None,
            led.pending() == Seq::<LedAction>::empty(),
    {
        let led = ProfileLed { last_profile: None, blinks_left: 0, phase: BlinkPhase::Rest };
        assert(led.pending() =~= Seq::<LedAction>::empty());
        led
    }

    /// Takes in that `profile` is the active one. A profile other than the one
    /// shown last is shown by one blink more than its number; the same one is
    /// not shown again.
    pub fn profile_changed(&mut self, profile: u8)
        requires
            old(self).pending() == Seq::<LedAction>::empty(),
            old(self).last_profile != Some(profile) ==> profile < u8::MAX,
        ensures
            final(self).last_profile == Some(profile),
            final(self).pending() == if old(self).last_profile == Some(profile) {
                Seq::empty()
            } else {
                blinks((profile + 1) as nat)
            },
    {
        let shown = match self.last_profile {
            Some(last) => last == profile,
            None => false,
        };
        if !shown {
            self.last_profile = Some(profile);
            self.blinks_left = (profile + 1) as usize;
            self.phase = BlinkPhase::Rest;
            assert(self.pending() =~= blinks((profile + 1) as nat));
        }
    }

    /// The next action, which the caller is to do now; `None` where nothing is
    /// left to do.
    pub fn next_action(&mut self) -> (action: Option<LedAction>)
        ensures
            final(self).last_profile == old(self).last_profile,
            old(self).pending().len() == 0 ==> {
                &&& action is None
                &&& final(self).pending() == old(self).pending()
            },
            old(self).pending().len() > 0 ==> {
                &&& action == Some(old(self).pending()[0])
                &&& final(self).pending() == old(self).pending().skip(1)
            },
    {
        let action = match self.phase {
            BlinkPhase::Rest => {
                if self.blinks_left == 0 {
                    return None;
                }
                self.blinks_left = self.blinks_left - 1;
                self.phase = BlinkPhase::Lit;
                LedAction::SetLow
            },
            BlinkPhase::Lit => {
                self.phase = BlinkPhase::LitDone;
                LedAction::Wait { millis: BLINK_MILLIS }
            },
            BlinkPhase::LitDone => {
                self.phase = BlinkPhase::Dark;
                LedAction::SetHigh
            },
            BlinkPhase::Dark => {
                self.phase = BlinkPhase::Rest;
                LedAction::Wait { millis: BLINK_MILLIS }
            },
        };
        assert(self.pending() =~= old(self).pending().skip(1));
        Some(action)
    }
}

/// Showing a profile takes four actions a blink, and the actions of each blink
/// are the same. So the LED is lit once in each blink, and put out as often.
pub proof fn law_blinks_are_alike(n: nat)
    ensures
        blinks(n).len() == 4 * n,
        forall|i: int| 0 <= i < blinks(n).len() ==> #[trigger] blinks(n)[i] == blink()[i % 4],
    decreases n,
{
    if n > 0 {
        let rest = blinks((n - 1) as nat);
        law_blinks_are_alike((n - 1) as nat);
        assert forall|i: int| 0 <= i < blinks(n).len() implies #[trigger] blinks(n)[i]
            == blink()[i % 4] by {
            if i >= 4 {
                assert(blinks(n)[i] == rest[i - 4]);
            }
        }
    }
}

/// Of every four actions the first lights the LED, the third puts it out, and
/// after each of the two 150 milliseconds pass.
pub proof fn law_each_action(n: nat, i: int)
    requires
        0 <= i < 4 * n,
    ensures
        blinks(n).len() == 4 * n,
        i % 4 == 0 ==> blinks(n)[i] == LedAction::SetLow,
        i % 4 == 2 ==> blinks(n)[i] == LedAction::SetHigh,
        i % 2 == 1 ==> blinks(n)[i] == (LedAction::Wait { millis: 150 }),
{
    law_blinks_are_alike(n);
}

/// Once a profile has been shown the LED is dark: nothing lights it after it
/// was last put out.
pub proof fn law_dark_at_the_end(n: nat)
    requires
        n > 0,
    ensures
        blinks(n)[4 * n - 2] == LedAction::SetHigh,
        blinks(n)[4 * n - 1] == (LedAction::Wait { millis: BLINK_MILLIS }),
{
    law_blinks_are_alike(n);
}

} // verus!
