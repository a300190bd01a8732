//! The push button: debouncing, short press and long press.

use vstd::prelude::*;
use super::{InputPin, elapsed_ms};

verus! {

/// A press shorter than this is contact bounce, not a press (ms).
pub const DEBOUNCE_MS: u64 = 50;

/// Holding the button this long is a long press (ms): WiFi reset.
pub const LONG_PRESS_MS: u64 = 3000;

/// What the button reports.
#[derive(Debug, Clone, Copy, PartialEq, Eq, Structural)]
pub enum ButtonEvent {
    /// A short press: toggle the relay.
    ShortPress,
    /// Held for [`LONG_PRESS_MS`]: reset WiFi and provision again.
    LongPress,
}

/// What the button driver remembers between two polls.
#[derive(Debug, Clone, Copy, PartialEq, Eq, Structural)]
pub struct ButtonState {
    /// When the current press began (ms).
    pub press_start: Option<u64>,
    /// Whether the button was down at the last poll.
    pub was_pressed: bool,
    /// Whether the current press has already been reported as long.
    pub long_press_fired: bool,
}

/// The state of a button that has never been pressed.
pub open spec fn released_state() -> ButtonState {
    ButtonState { press_start: None, was_pressed: false, long_press_fired: false }
}

/// One poll at time `now` that finds the button down (`pressed`) or up:
/// the state after it, and the event it reports.
pub open spec fn button_step(s: ButtonState, pressed: bool, now: u64) -> (ButtonState, Option<ButtonEvent>) {
    if !s.was_pressed && pressed {
        (ButtonState { press_start: Some(now), was_pressed: true, long_press_fired: false }, None)
    } else if s.was_pressed && pressed {
        match s.press_start {
            Some(start) => if !s.long_press_fired && elapsed_ms(start, now) >= LONG_PRESS_MS {
                (ButtonState { long_press_fired: true, ..s }, Some(ButtonEvent::LongPress))
            } else {
                (s, None)
            },
            None => (s, None),
        }
    } else if s.was_pressed && !pressed {
        let released = ButtonState { press_start: None, was_pressed: false, ..s };
        if s.long_press_fired {
            (released, None)
        } else {
            match s.press_start {
                Some(start) => if elapsed_ms(start, now) >= DEBOUNCE_MS {
                    (released, Some(ButtonEvent::ShortPress))
                } else {
                    (released, None)
                },
                None => (released, None),
            }
        }
    } else {
        (s, None)
    }
}

/// A button on an input pin, wired to ground: the pin reads low while the
/// button is down.
pub struct ButtonDriver<P: InputPin> {
    pin: P,
    index: usize,
    state: ButtonState,
}

impl<P: InputPin> ButtonDriver<P> {
    /// What the driver remembers.
    pub closed spec fn state(&self) -> ButtonState {
        self.state
    }

    /// Which button of the device this is.
    pub closed spec fn button_index(&self) -> usize {
        self.index
    }

    /// A driver for a button that is up.
    pub fn new(pin: P, index: usize) -> (res: Self)
        ensures
            res.state() == released_state(),
            res.button_index() == index,
    {
        ButtonDriver {
            pin,
            index,
            state: ButtonState { press_start: None, was_pressed: false, long_press_fired: false },
        }
    }

    /// Takes a reading of the button, down (`pressed`) or up, at time
    /// `now_ms`, and reports the event it completes.
    pub fn update(&mut self, pressed: bool, now_ms: u64) -> (res: Option<ButtonEvent>)
        ensures
            (final(self).state(), res) == button_step(old(self).state(), pressed, now_ms),
            final(self).button_index() == old(self).button_index(),
    {
        let s = self.state;
        if !s.was_pressed && pressed {
            self.state = ButtonState { press_start: Some(now_ms), was_pressed: true, long_press_fired: false };
            None
        } else if s.was_pressed && pressed {
            if !s.long_press_fired {
                if let Some(start) = s.press_start {
                    if now_ms.saturating_sub(start) >= LONG_PRESS_MS {
                        self.state.long_press_fired = true;
                        return Some(ButtonEvent::LongPress);
                    }
                }
            }
            None
        } else if s.was_pressed && !pressed {
            self.state.was_pressed = false;
            let start = self.state.press_start.take();
            if !s.long_press_fired {
                match start {
                    Some(start) => {
                        if now_ms.saturating_sub(start) >= DEBOUNCE_MS {
                            Some(ButtonEvent::ShortPress)
                        } else {
                            None
                        }
                    },
                    None => None,
                }
            } else {
                None
            }
        } else {
            None
        }
    }

    /// Reads the pin at time `now_ms` (call it every 10 ms or so) and reports
    /// the event the reading completes.
    pub fn poll(&mut self, now_ms: u64) -> (res: Option<ButtonEvent>)
        ensures
            exists|pressed: bool|
                (final(self).state(), res) == #[trigger] button_step(old(self).state(), pressed, now_ms),
            final(self).button_index() == old(self).button_index(),
    {
        let pressed = self.pin.is_low();
        let res = self.update(pressed, now_ms);
        assert((self.state, res) == button_step(old(self).state(), pressed, now_ms));
        res
    }

    /// Whether the button is held down.
    pub fn is_held(&self) -> (res: bool)
        ensures
            res == self.state().was_pressed,
    {
        self.state.was_pressed
    }

    /// How long the button has been held at time `now_ms` (ms); zero when it
    /// is up.
    pub fn held_duration_ms(&self, now_ms: u64) -> (res: u64)
        ensures
            res == (match (self.state().was_pressed, self.state().press_start) {
                (true, Some(start)) => elapsed_ms(start, now_ms),
                _ => 0,
            }),
    {
        match (self.state.was_pressed, self.state.press_start) {
            (true, Some(start)) => now_ms.saturating_sub(start),
            _ => 0,
        }
    }
}

/// Once a press has been reported as long, no poll reports anything more
/// until the button is released and pressed again.
pub proof fn lemma_long_press_reported_once(s: ButtonState, pressed: bool, now: u64)
    requires
        s.was_pressed,
        s.long_press_fired,
    ensures
        button_step(s, pressed, now).1 is None,
        pressed ==> button_step(s, pressed, now).0 == s,
{
}

/// A short press is reported only on release, only for a press that was not
/// reported as long, and only when it lasted at least [`DEBOUNCE_MS`].
pub proof fn lemma_short_press_debounced(s: ButtonState, pressed: bool, now: u64)
    requires
        button_step(s, pressed, now).1 == Some(ButtonEvent::ShortPress),
    ensures
        !pressed,
        s.was_pressed,
        !s.long_press_fired,
        s.press_start matches Some(start) && elapsed_ms(start, now) >= DEBOUNCE_MS,
{
}

/// A long press is reported only while the button is held, once it has been
/// held for [`LONG_PRESS_MS`], and only once per press.
pub proof fn lemma_long_press_held(s: ButtonState, pressed: bool, now: u64)
    requires
        button_step(s, pressed, now).1 == Some(ButtonEvent::LongPress),
    ensures
        pressed,
        s.was_pressed,
        !s.long_press_fired,
        s.press_start matches Some(start) && elapsed_ms(start, now) >= LONG_PRESS_MS,
        button_step(s, pressed, now).0.long_press_fired,
{
}

/// The state, and the event of each poll, after polls at `times` that all
/// find the button down, starting from `s`.
pub open spec fn polls_held(s: ButtonState, times: Seq<u64>) -> (ButtonState, Seq<Option<ButtonEvent>>)
    decreases times.len(),
{
    if times.len() == 0 {
        (s, Seq::empty())
    } else {
        let before = polls_held(s, times.drop_last());
        let step = button_step(before.0, true, times.last());
        (step.0, before.1.push(step.1))
    }
}

/// Whether a press that began at `start` counts as long at time `now`.
pub open spec fn long_at(start: u64, now: u64) -> bool {
    elapsed_ms(start, now) >= LONG_PRESS_MS
}

/// A press held from the first of `times` on, the button having been up
/// before: each poll reports nothing, except the first poll at which the
/// press has lasted [`LONG_PRESS_MS`], which reports a long press. The press
/// is remembered as long from then on.
pub proof fn lemma_held_press(s: ButtonState, times: Seq<u64>)
    requires
        !s.was_pressed,
        times.len() > 0,
    ensures
        ({
            let (end, events) = polls_held(s, times);
            &&& events.len() == times.len()
            &&& end.was_pressed && end.press_start == Some(times[0])
            &&& end.long_press_fired == (exists|j: int| 0 <= j < times.len() && #[trigger] long_at(times[0], times[j]))
            &&& forall|k: int|
                0 <= k < times.len() ==> #[trigger] events[k] == (if long_at(times[0], times[k]) && (forall|j: int|
                    0 <= j < k ==> !#[trigger] long_at(times[0], times[j])) {
                    Some(ButtonEvent::LongPress)
                } else {
                    None
                })
        }),
    decreases times.len(),
{
    let t0 = times[0];
    if times.len() == 1 {
        assert(!long_at(t0, t0));
        let (end, events) = polls_held(s, times);
        assert(polls_held(s, times.drop_last()) == (s, Seq::<Option<ButtonEvent>>::empty()));
        assert(events =~= seq![None::<ButtonEvent>]);
        assert forall|j: int| 0 <= j < times.len() implies !#[trigger] long_at(times[0], times[j]) by {
            assert(j == 0);
        }
    } else {
        let prefix = times.drop_last();
        let n = times.len() - 1;
        let tn = times[n];
        lemma_held_press(s, prefix);
        assert(prefix[0] == t0);
        let (mid, early) = polls_held(s, prefix);
        let (end, events) = polls_held(s, times);
        assert(events == early.push(button_step(mid, true, tn).1));
        let fired_before = exists|j: int| 0 <= j < prefix.len() && #[trigger] long_at(prefix[0], prefix[j]);
        assert(fired_before == exists|j: int| 0 <= j < n && #[trigger] long_at(t0, times[j])) by {
            if fired_before {
                let j = choose|j: int| 0 <= j < prefix.len() && #[trigger] long_at(prefix[0], prefix[j]);
                assert(prefix[j] == times[j]);
            }
            if exists|j: int| 0 <= j < n && #[trigger] long_at(t0, times[j]) {
                let j = choose|j: int| 0 <= j < n && #[trigger] long_at(t0, times[j]);
                assert(prefix[j] == times[j]);
            }
        }
        assert(end.long_press_fired == (exists|j: int| 0 <= j < times.len() && #[trigger] long_at(times[0], times[j]))) by {
            if long_at(t0, tn) {
                assert(long_at(times[0], times[n]));
            }
            if exists|j: int| 0 <= j < times.len() && #[trigger] long_at(times[0], times[j]) {
                let j = choose|j: int| 0 <= j < times.len() && #[trigger] long_at(times[0], times[j]);
                if j < n {
                    assert(long_at(t0, times[j]));
                }
            }
        }
        assert forall|k: int| 0 <= k < times.len() implies #[trigger] events[k] == (if long_at(times[0], times[k]) && (forall|j: int|
            0 <= j < k ==> !#[trigger] long_at(times[0], times[j])) {
            Some(ButtonEvent::LongPress)
        } else {
            None
        }) by {
            if k < n {
                assert(events[k] == early[k]);
                assert(prefix[k] == times[k]);
                assert((forall|j: int| 0 <= j < k ==> !#[trigger] long_at(prefix[0], prefix[j])) == (forall|j: int|
                    0 <= j < k ==> !#[trigger] long_at(times[0], times[j]))) by {
                    assert forall|j: int| 0 <= j < k implies prefix[j] == times[j] by {}
                    if exists|j: int| 0 <= j < k && #[trigger] long_at(times[0], times[j]) {
                        let j = choose|j: int| 0 <= j < k && #[trigger] long_at(times[0], times[j]);
                        assert(long_at(prefix[0], prefix[j]));
                    }
                    if exists|j: int| 0 <= j < k && #[trigger] long_at(prefix[0], prefix[j]) {
                        let j = choose|j: int| 0 <= j < k && #[trigger] long_at(prefix[0], prefix[j]);
                        assert(long_at(times[0], times[j]));
                    }
                }
            } else {
                assert(k == n);
                if exists|j: int| 0 <= j < n && #[trigger] long_at(t0, times[j]) {
                    let j = choose|j: int| 0 <= j < n && #[trigger] long_at(t0, times[j]);
                    assert(long_at(times[0], times[j]));
                }
            }
        }
    }
}

/// The poll that finds a held press released reports a short press exactly
/// when the press was not reported as long and lasted [`DEBOUNCE_MS`];
/// shorter presses are contact bounce. The button is then up.
pub proof fn lemma_press_released(s: ButtonState, times: Seq<u64>, now: u64)
    requires
        !s.was_pressed,
        times.len() > 0,
    ensures
        ({
            let (after, event) = button_step(polls_held(s, times).0, false, now);
            &&& event == (if (forall|j: int| 0 <= j < times.len() ==> !#[trigger] long_at(times[0], times[j]))
                && elapsed_ms(times[0], now) >= DEBOUNCE_MS {
                Some(ButtonEvent::ShortPress)
            } else {
                None
            })
            &&& !after.was_pressed && after.press_start is None
        }),
{
    lemma_held_press(s, times);
}

/// After any poll the driver remembers the button as down exactly when the
/// poll found it down.
pub proof fn lemma_poll_tracks_reading(s: ButtonState, pressed: bool, now: u64)
    ensures
        button_step(s, pressed, now).0.was_pressed == pressed,
{
}

/// A poll that finds the button up while it was up reports nothing and
/// changes nothing; so no press, short or long, is reported unless some poll
/// found the button down since it was last released.
pub proof fn lemma_idle_poll_does_nothing(s: ButtonState, now: u64)
    requires
        !s.was_pressed,
    ensures
        button_step(s, false, now) == (s, None::<ButtonEvent>),
{
}

/// A poll that finds the button down while it was up starts a new press at
/// that time, reports nothing yet, and forgets any earlier long press.
pub proof fn lemma_press_starts(s: ButtonState, now: u64)
    requires
        !s.was_pressed,
    ensures
        button_step(s, true, now) == (
            ButtonState { press_start: Some(now), was_pressed: true, long_press_fired: false },
            None::<ButtonEvent>,
        ),
{
}

/// The thresholds of a press, in milliseconds from its start: a release
/// after at least 50 ms of a press not yet reported as long is a short
/// press, and a press held for 3 s is reported as long once.
pub proof fn lemma_press_thresholds(s: ButtonState, pressed: bool, now: u64)
    ensures
        s.was_pressed && !s.long_press_fired && !pressed ==> (s.press_start matches Some(start) ==> (button_step(
            s,
            pressed,
            now,
        ).1 == Some(ButtonEvent::ShortPress) <==> elapsed_ms(start, now) >= 50)),
        s.was_pressed && !s.long_press_fired && pressed ==> (s.press_start matches Some(start) ==> (button_step(
            s,
            pressed,
            now,
        ).1 == Some(ButtonEvent::LongPress) <==> elapsed_ms(start, now) >= 3000)),
{
}

/// The driver remembers a press start exactly while the button is down.
pub open spec fn button_state_wf(s: ButtonState) -> bool {
    s.was_pressed == (s.press_start is Some)
}

/// Every poll keeps that correspondence.
pub proof fn lemma_button_step_keeps_wf(s: ButtonState, pressed: bool, now: u64)
    requires
        button_state_wf(s),
    ensures
        button_state_wf(button_step(s, pressed, now).0),
{
}

} // verus!
