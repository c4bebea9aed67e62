use vstd::prelude::*;

verus! {

/// Virtual key code of the left Alt key.
pub const VK_LMENU: u32 = 0xA4;
/// Virtual key code of the right Ctrl key.
pub const VK_RCONTROL: u32 = 0xA3;
/// Virtual key code of the right Shift key.
pub const VK_RSHIFT: u32 = 0xA1;

/// Keyboard messages delivered to a low-level keyboard hook.
pub const WM_KEYDOWN: usize = 0x0100;
pub const WM_KEYUP: usize = 0x0101;
pub const WM_SYSKEYDOWN: usize = 0x0104;
pub const WM_SYSKEYUP: usize = 0x0105;

/// Minimum spacing, in milliseconds, between two toggle presses.
pub const TOGGLE_DEBOUNCE_MS: u64 = 500;

/// What the hotkey recogniser reports.
#[derive(Debug, Clone, Copy, PartialEq, Eq, Structural)]
pub enum HotkeyEvent {
    HoldStart,
    HoldStop,
    TogglePressed,
}

/// Which of the three watched modifiers are held, and when the last toggle fired.
#[derive(Debug, Clone, Copy, PartialEq, Eq, Structural)]
pub struct KeyState {
    pub lalt_down: bool,
    pub rctrl_down: bool,
    pub rshift_down: bool,
    pub last_toggle_ms: u64,
}

pub open spec fn is_key_down(wparam: usize) -> bool {
    wparam == WM_KEYDOWN || wparam == WM_SYSKEYDOWN
}

pub open spec fn is_key_up(wparam: usize) -> bool {
    wparam == WM_KEYUP || wparam == WM_SYSKEYUP
}

/// The held flag of `key` after a message for `vk`.
pub open spec fn track(held: bool, key: u32, vk: u32, wparam: usize) -> bool {
    if vk == key {
        if is_key_down(wparam) {
            true
        } else if is_key_up(wparam) {
            false
        } else {
            held
        }
    } else {
        held
    }
}

/// The held flags after a message; the toggle time is kept.
pub open spec fn next_keys(s: KeyState, vk: u32, wparam: usize) -> KeyState {
    KeyState {
        lalt_down: track(s.lalt_down, VK_LMENU, vk, wparam),
        rctrl_down: track(s.rctrl_down, VK_RCONTROL, vk, wparam),
        rshift_down: track(s.rshift_down, VK_RSHIFT, vk, wparam),
        last_toggle_ms: s.last_toggle_ms,
    }
}

/// Left Alt and right Ctrl are both held.
pub open spec fn hold_chord(s: KeyState) -> bool {
    s.lalt_down && s.rctrl_down
}

/// A fresh press of right Shift completes the three-key toggle chord.
pub open spec fn toggle_chord(s: KeyState, vk: u32, wparam: usize) -> bool {
    let n = next_keys(s, vk, wparam);
    &&& n.lalt_down
    &&& n.rctrl_down
    &&& n.rshift_down
    &&& !s.rshift_down
    &&& is_key_down(wparam)
    &&& vk == VK_RSHIFT
}

/// Milliseconds from `last` to `now` as an unsigned 64-bit difference: a
/// clock that went back wraps around to a very large interval.
pub open spec fn elapsed_ms(now: u64, last: u64) -> int {
    if now >= last {
        now - last
    } else {
        now - last + 0x1_0000_0000_0000_0000
    }
}

/// The recogniser's reaction to one hook call: the new state and the event
/// it reports, if any.
pub open spec fn key_step(s: KeyState, code: i32, vk: u32, wparam: usize, now_ms: u64) -> (
    KeyState,
    Option<HotkeyEvent>,
) {
    if code < 0 {
        (s, None)
    } else {
        let n = next_keys(s, vk, wparam);
        if toggle_chord(s, vk, wparam) {
            if elapsed_ms(now_ms, s.last_toggle_ms) > TOGGLE_DEBOUNCE_MS {
                (KeyState { last_toggle_ms: now_ms, ..n }, Some(HotkeyEvent::TogglePressed))
            } else {
                (n, None)
            }
        } else if hold_chord(n) && !hold_chord(s) && !n.rshift_down {
            (n, Some(HotkeyEvent::HoldStart))
        } else if !hold_chord(n) && hold_chord(s) && !n.rshift_down && !s.rshift_down {
            (n, Some(HotkeyEvent::HoldStop))
        } else {
            (n, None)
        }
    }
}

/// The state before any key has been seen.
pub fn initial_key_state() -> (s: KeyState)
    ensures
        !s.lalt_down && !s.rctrl_down && !s.rshift_down && s.last_toggle_ms == 0,
{
    KeyState { lalt_down: false, rctrl_down: false, rshift_down: false, last_toggle_ms: 0 }
}

/// Forgets which keys are held (the hook is being removed); the toggle time is kept.
pub fn reset_keys(s: KeyState) -> (r: KeyState)
    ensures
        r == (KeyState { lalt_down: false, rctrl_down: false, rshift_down: false, ..s }),
{
    KeyState { lalt_down: false, rctrl_down: false, rshift_down: false, ..s }
}

fn track_key(held: bool, key: u32, vk: u32, down: bool, up: bool) -> (r: bool)
    ensures
        r == (if vk == key {
            if down {
                true
            } else if up {
                false
            } else {
                held
            }
        } else {
            held
        }),
{
    if vk == key {
        if down {
            true
        } else if up {
            false
        } else {
            held
        }
    } else {
        held
    }
}

/// Whether a message completes the toggle chord, so that the hook compares
/// the current time with the last toggle.
pub fn is_toggle_chord(s: KeyState, vk: u32, wparam: usize) -> (r: bool)
    ensures
        r == toggle_chord(s, vk, wparam),
{
    let down = wparam == WM_KEYDOWN || wparam == WM_SYSKEYDOWN;
    let up = wparam == WM_KEYUP || wparam == WM_SYSKEYUP;
    let lalt = track_key(s.lalt_down, VK_LMENU, vk, down, up);
    let rctrl = track_key(s.rctrl_down, VK_RCONTROL, vk, down, up);
    let rshift = track_key(s.rshift_down, VK_RSHIFT, vk, down, up);
    lalt && rctrl && rshift && !s.rshift_down && down && vk == VK_RSHIFT
}

/// One call of the low-level keyboard hook: updates the held modifiers and
/// decides whether a hold start, hold stop or (debounced) toggle happened.
pub fn hook_step(s: KeyState, code: i32, vk: u32, wparam: usize, now_ms: u64) -> (r: (
    KeyState,
    Option<HotkeyEvent>,
))
    ensures
        r == key_step(s, code, vk, wparam, now_ms),
{
    if code < 0 {
        return (s, None);
    }
    let down = wparam == WM_KEYDOWN || wparam == WM_SYSKEYDOWN;
    let up = wparam == WM_KEYUP || wparam == WM_SYSKEYUP;
    let n = KeyState {
        lalt_down: track_key(s.lalt_down, VK_LMENU, vk, down, up),
        rctrl_down: track_key(s.rctrl_down, VK_RCONTROL, vk, down, up),
        rshift_down: track_key(s.rshift_down, VK_RSHIFT, vk, down, up),
        last_toggle_ms: s.last_toggle_ms,
    };
    let prev_both = s.lalt_down && s.rctrl_down;
    let now_both = n.lalt_down && n.rctrl_down;
    if n.lalt_down && n.rctrl_down && n.rshift_down && !s.rshift_down && down && vk == VK_RSHIFT {
        let elapsed: u64 = if now_ms >= s.last_toggle_ms {
            now_ms - s.last_toggle_ms
        } else {
            now_ms + (u64::MAX - s.last_toggle_ms) + 1
        };
        if elapsed > TOGGLE_DEBOUNCE_MS {
            (KeyState { last_toggle_ms: now_ms, ..n }, Some(HotkeyEvent::TogglePressed))
        } else {
            (n, None)
        }
    } else if now_both && !prev_both && !n.rshift_down {
        (n, Some(HotkeyEvent::HoldStart))
    } else if !now_both && prev_both && !n.rshift_down && !s.rshift_down {
        (n, Some(HotkeyEvent::HoldStop))
    } else {
        (n, None)
    }
}

/// Keys other than the three watched modifiers neither change the state nor
/// produce an event.
pub proof fn law_other_keys_inert(s: KeyState, code: i32, vk: u32, wparam: usize, now_ms: u64)
    requires
        vk != VK_LMENU,
        vk != VK_RCONTROL,
        vk != VK_RSHIFT,
    ensures
        key_step(s, code, vk, wparam, now_ms) == (s, None::<HotkeyEvent>),
{
}

/// Calls that the hook must pass on untouched (negative code) change nothing.
pub proof fn law_negative_code_inert(s: KeyState, code: i32, vk: u32, wparam: usize, now_ms: u64)
    requires
        code < 0,
    ensures
        key_step(s, code, vk, wparam, now_ms) == (s, None::<HotkeyEvent>),
{
}

/// After any hook call the held flags reflect the message just seen.
pub proof fn law_keys_tracked(s: KeyState, code: i32, vk: u32, wparam: usize, now_ms: u64)
    requires
        code >= 0,
    ensures
        key_step(s, code, vk, wparam, now_ms).0.lalt_down == track(s.lalt_down, VK_LMENU, vk, wparam),
        key_step(s, code, vk, wparam, now_ms).0.rctrl_down == track(s.rctrl_down, VK_RCONTROL, vk, wparam),
        key_step(s, code, vk, wparam, now_ms).0.rshift_down == track(s.rshift_down, VK_RSHIFT, vk, wparam),
{
}

/// A hold starts only when left Alt and right Ctrl become held together
/// without right Shift; a hold stops only when that chord is broken while
/// right Shift stays up.
pub proof fn law_hold_edges(s: KeyState, code: i32, vk: u32, wparam: usize, now_ms: u64)
    ensures
        ({
            let (t, e) = key_step(s, code, vk, wparam, now_ms);
            &&& e == Some(HotkeyEvent::HoldStart) ==> hold_chord(t) && !hold_chord(s) && !t.rshift_down
            &&& e == Some(HotkeyEvent::HoldStop) ==> !hold_chord(t) && hold_chord(s) && !t.rshift_down
                && !s.rshift_down
        }),
{
}

/// The toggle time moves only when a toggle is reported, and a toggle is
/// reported only more than the debounce interval after the previous one.
pub proof fn law_toggle_debounce(s: KeyState, code: i32, vk: u32, wparam: usize, now_ms: u64)
    ensures
        ({
            let (t, e) = key_step(s, code, vk, wparam, now_ms);
            &&& e == Some(HotkeyEvent::TogglePressed) ==> elapsed_ms(now_ms, s.last_toggle_ms)
                > TOGGLE_DEBOUNCE_MS && t.last_toggle_ms == now_ms && t.lalt_down && t.rctrl_down
                && t.rshift_down
            &&& e != Some(HotkeyEvent::TogglePressed) ==> t.last_toggle_ms == s.last_toggle_ms
        }),
{
}

/// Hold-to-talk starts whichever of its two keys is pressed second: with
/// right Shift up and exactly one of left Alt and right Ctrl held, pressing
/// the other one reports a hold start.
pub proof fn law_hold_starts_with_either_key(s: KeyState, code: i32, vk: u32, wparam: usize, now_ms: u64)
    requires
        code >= 0,
        !s.rshift_down,
        wparam == WM_KEYDOWN || wparam == WM_SYSKEYDOWN,
        (vk == VK_LMENU && !s.lalt_down && s.rctrl_down) || (vk == VK_RCONTROL && !s.rctrl_down && s.lalt_down),
    ensures
        key_step(s, code, vk, wparam, now_ms).1 == Some(HotkeyEvent::HoldStart),
        key_step(s, code, vk, wparam, now_ms).0.lalt_down,
        key_step(s, code, vk, wparam, now_ms).0.rctrl_down,
{
}

/// Hold-to-talk stops whichever of its two keys is released first: with
/// right Shift up and both held, releasing either reports a hold stop.
pub proof fn law_hold_stops_with_either_key(s: KeyState, code: i32, vk: u32, wparam: usize, now_ms: u64)
    requires
        code >= 0,
        !s.rshift_down,
        s.lalt_down && s.rctrl_down,
        wparam == WM_KEYUP || wparam == WM_SYSKEYUP,
        vk == VK_LMENU || vk == VK_RCONTROL,
    ensures
        key_step(s, code, vk, wparam, now_ms).1 == Some(HotkeyEvent::HoldStop),
{
}

/// The states a run of hook calls passes through: `states[k + 1]` is the
/// state after call `k` (code, key, message, time) from `states[k]`.
pub open spec fn is_run(states: Seq<KeyState>, calls: Seq<(i32, u32, usize, u64)>) -> bool {
    &&& states.len() == calls.len() + 1
    &&& forall|k: int|
        0 <= k < calls.len() ==> states[k + 1] == #[trigger] key_step(
            states[k],
            calls[k].0,
            calls[k].1,
            calls[k].2,
            calls[k].3,
        ).0
}

pub open spec fn toggles_at(states: Seq<KeyState>, calls: Seq<(i32, u32, usize, u64)>, k: int) -> bool {
    key_step(states[k], calls[k].0, calls[k].1, calls[k].2, calls[k].3).1 == Some(
        HotkeyEvent::TogglePressed,
    )
}

/// The clock of a run of hook calls never goes back.
pub open spec fn clock_monotone(calls: Seq<(i32, u32, usize, u64)>) -> bool {
    forall|i: int, j: int| 0 <= i <= j < calls.len() ==> #[trigger] calls[i].3 <= #[trigger] calls[j].3
}

proof fn lemma_toggle_time_bounds(states: Seq<KeyState>, calls: Seq<(i32, u32, usize, u64)>, k: int)
    requires
        is_run(states, calls),
        clock_monotone(calls),
        calls.len() >= 1,
        toggles_at(states, calls, 0),
        1 <= k <= calls.len(),
    ensures
        calls[0].3 <= states[k].last_toggle_ms <= calls[k - 1].3,
    decreases k,
{
    if k == 1 {
        law_toggle_debounce(states[0], calls[0].0, calls[0].1, calls[0].2, calls[0].3);
    } else {
        lemma_toggle_time_bounds(states, calls, k - 1);
        let j = k - 1;
        law_toggle_debounce(states[j], calls[j].0, calls[j].1, calls[j].2, calls[j].3);
        assert(calls[k - 2].3 <= calls[k - 1].3);
    }
}

/// Two toggles reported in one run of hook calls whose clock never goes
/// back are more than the debounce interval apart, whatever messages came
/// between them.
pub proof fn law_toggles_spaced(states: Seq<KeyState>, calls: Seq<(i32, u32, usize, u64)>, m: int)
    requires
        is_run(states, calls),
        clock_monotone(calls),
        0 < m < calls.len(),
        toggles_at(states, calls, 0),
        toggles_at(states, calls, m),
    ensures
        calls[m].3 - calls[0].3 > TOGGLE_DEBOUNCE_MS,
{
    lemma_toggle_time_bounds(states, calls, m);
    law_toggle_debounce(states[m], calls[m].0, calls[m].1, calls[m].2, calls[m].3);
    assert(calls[m - 1].3 <= calls[m].3);
}

} // verus!
