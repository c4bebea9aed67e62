use vstd::prelude::*;
use vstd::string::*;
use crate::hotkey::HotkeyEvent;

verus! {

/// Whether audio is being captured, and whether the capture was started
/// in toggle mode (press to start, press again to stop).
#[derive(Debug, Clone, Copy, PartialEq, Eq, Structural)]
pub struct Session {
    pub is_recording: bool,
    pub is_toggle_mode: bool,
}

/// What the application must do after a session decision.
#[derive(Debug, Clone, Copy, PartialEq, Eq, Structural)]
pub enum SessionAction {
    /// Nothing to do.
    Nothing,
    /// Open the microphone and report the outcome to `capture_started`;
    /// when `arm_auto_stop` holds, also schedule `auto_stop_elapsed` after
    /// the configured maximum recording time.
    StartCapture { arm_auto_stop: bool },
    /// Only schedule `auto_stop_elapsed`.
    ArmAutoStop,
    /// Stop capturing and process the recording.
    StopAndProcess,
}

pub open spec fn idle() -> Session {
    Session { is_recording: false, is_toggle_mode: false }
}

/// The session's reaction to a hotkey event.
pub open spec fn hotkey_spec(s: Session, e: HotkeyEvent) -> (Session, SessionAction) {
    match e {
        HotkeyEvent::HoldStart => {
            if s.is_toggle_mode || s.is_recording {
                (s, SessionAction::Nothing)
            } else {
                (s, SessionAction::StartCapture { arm_auto_stop: false })
            }
        },
        HotkeyEvent::HoldStop => {
            if s.is_toggle_mode || !s.is_recording {
                (s, SessionAction::Nothing)
            } else {
                (idle(), SessionAction::StopAndProcess)
            }
        },
        HotkeyEvent::TogglePressed => {
            if s.is_recording && s.is_toggle_mode {
                (idle(), SessionAction::StopAndProcess)
            } else if s.is_recording {
                (Session { is_toggle_mode: true, ..s }, SessionAction::ArmAutoStop)
            } else {
                (
                    Session { is_toggle_mode: true, ..s },
                    SessionAction::StartCapture { arm_auto_stop: true },
                )
            }
        },
    }
}

/// A fresh session: not recording, not in toggle mode.
pub fn new_session() -> (s: Session)
    ensures
        s == idle(),
{
    Session { is_recording: false, is_toggle_mode: false }
}

/// Decides what a hotkey event does: hold events are ignored in toggle mode;
/// a hold start opens the microphone unless already recording; a hold stop
/// ends a recording; a toggle press ends a toggle recording or else enters
/// toggle mode, opening the microphone if needed and arming the auto-stop.
pub fn on_hotkey(s: Session, e: HotkeyEvent) -> (r: (Session, SessionAction))
    ensures
        r == hotkey_spec(s, e),
{
    match e {
        HotkeyEvent::HoldStart => {
            if s.is_toggle_mode || s.is_recording {
                (s, SessionAction::Nothing)
            } else {
                (s, SessionAction::StartCapture { arm_auto_stop: false })
            }
        },
        HotkeyEvent::HoldStop => {
            if s.is_toggle_mode || !s.is_recording {
                (s, SessionAction::Nothing)
            } else {
                (new_session(), SessionAction::StopAndProcess)
            }
        },
        HotkeyEvent::TogglePressed => {
            if s.is_recording && s.is_toggle_mode {
                (new_session(), SessionAction::StopAndProcess)
            } else if s.is_recording {
                (Session { is_toggle_mode: true, ..s }, SessionAction::ArmAutoStop)
            } else {
                (
                    Session { is_toggle_mode: true, ..s },
                    SessionAction::StartCapture { arm_auto_stop: true },
                )
            }
        },
    }
}

/// Records the outcome of opening the microphone: the session is recording
/// exactly when the capture started; a failure leaves it as it was.
pub fn capture_started(s: Session, ok: bool) -> (r: Session)
    ensures
        r == (if ok {
            Session { is_recording: true, ..s }
        } else {
            s
        }),
{
    if ok {
        Session { is_recording: true, ..s }
    } else {
        s
    }
}

/// The maximum recording time of a toggle session has passed: a toggle
/// recording that is still running is stopped; anything else is left alone.
pub fn auto_stop_elapsed(s: Session) -> (r: (Session, SessionAction))
    ensures
        r == (if s.is_toggle_mode && s.is_recording {
            (idle(), SessionAction::StopAndProcess)
        } else {
            (s, SessionAction::Nothing)
        }),
{
    if s.is_toggle_mode && s.is_recording {
        (new_session(), SessionAction::StopAndProcess)
    } else {
        (s, SessionAction::Nothing)
    }
}

/// `"recording"` while capturing, `"idle"` otherwise.
pub fn get_status(s: &Session) -> (r: String)
    ensures
        r@ == (if s.is_recording {
            "recording"@
        } else {
            "idle"@
        }),
{
    if s.is_recording {
        String::from_str("recording")
    } else {
        String::from_str("idle")
    }
}

/// Every stop leaves the session idle.
pub proof fn law_stop_resets(s: Session, e: HotkeyEvent)
    ensures
        hotkey_spec(s, e).1 == SessionAction::StopAndProcess ==> hotkey_spec(s, e).0 == idle(),
{
}

/// In toggle mode, hold events change nothing and do nothing.
pub proof fn law_toggle_ignores_hold(s: Session, e: HotkeyEvent)
    requires
        s.is_toggle_mode,
        e != HotkeyEvent::TogglePressed,
    ensures
        hotkey_spec(s, e) == (s, SessionAction::Nothing),
{
}

/// A hotkey never marks the session as recording by itself: recording
/// begins only with a successful capture.
pub proof fn law_recording_needs_capture(s: Session, e: HotkeyEvent)
    ensures
        hotkey_spec(s, e).0.is_recording ==> s.is_recording,
{
}

/// Hold-to-talk: from any session outside toggle mode that is not
/// recording, a hold start opens the microphone, and once it is open the
/// hold stop ends the recording and returns to idle.
pub proof fn law_hold_round_trip(s: Session)
    requires
        !s.is_toggle_mode,
        !s.is_recording,
    ensures
        hotkey_spec(s, HotkeyEvent::HoldStart) == (s, (SessionAction::StartCapture {
            arm_auto_stop: false,
        })),
        hotkey_spec((Session { is_recording: true, ..s }), HotkeyEvent::HoldStop) == (
            idle(),
            SessionAction::StopAndProcess,
        ),
{
}

/// Toggle-to-talk: from any session that is not already a toggle
/// recording, a toggle press enters toggle mode; once the microphone is
/// open, the next toggle press ends the recording and returns to idle.
pub proof fn law_toggle_round_trip(s: Session)
    requires
        !(s.is_recording && s.is_toggle_mode),
    ensures
        hotkey_spec(s, HotkeyEvent::TogglePressed).0.is_toggle_mode,
        hotkey_spec(s, HotkeyEvent::TogglePressed).0.is_recording == s.is_recording,
        !s.is_recording ==> hotkey_spec(s, HotkeyEvent::TogglePressed).1
            == (SessionAction::StartCapture { arm_auto_stop: true }),
        hotkey_spec(
            (Session { is_recording: true, ..hotkey_spec(s, HotkeyEvent::TogglePressed).0 }),
            HotkeyEvent::TogglePressed,
        ) == (idle(), SessionAction::StopAndProcess),
{
}

} // verus!
