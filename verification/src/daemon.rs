//! The background scheduler's decisions: whether it keeps running, what each
//! pass does, and how long it waits for the session at login.

use crate::config::{handler_view, loaded, Settings, Store, StoreView};
use crate::host::HostSetup;
use crate::record::TintState;
use crate::scan::{strip_prefix, without_prefix};
use crate::text::{decimal, decimal_text, parse_u32, parse_unsigned, trim, trimmed};
use crate::tick::{decide, decided_settings, decided_store, decisions_settle, Moment};
use vstd::prelude::*;

verus! {

/// How long to wait for the graphical session to become the foreground virtual
/// terminal before giving up and proceeding anyway, in milliseconds.
pub const SESSION_READY_TIMEOUT_MS: u64 = 60_000;

/// How often to look meanwhile, in milliseconds.
pub const SESSION_READY_POLL_MS: u64 = 500;

/// Whether a daemon runs at all. A managed one stands down where another managed
/// daemon already holds the slot there is for one; any other runs regardless.
pub fn daemon_start(managed: bool, slot_taken: bool) -> (start: bool)
    ensures
        start == !(managed && slot_taken),
{
    !(managed && slot_taken)
}

/// What a daemon does at the top of a pass.
#[derive(Clone, Copy, Debug, PartialEq, Eq, Structural)]
pub enum PassStart {
    /// Go through with the pass.
    Run,
    /// Exit: background running was turned off.
    TurnedOff,
    /// Turn background running off and exit: the applet keeps the schedule.
    Redundant,
}

/// What a daemon does at the top of a pass.
///
/// Only a managed daemon, one that the settings window's switch started, answers
/// to that switch: it stops when the switch is off, and stands down where the
/// applet is known to be on a panel. `enabled` is whether the switch is on, and
/// `applet` whether the applet is on a panel, where that can be told.
pub fn pass_start(managed: bool, enabled: bool, applet: Option<bool>) -> (start: PassStart)
    ensures
        start == (if managed && !enabled {
            PassStart::TurnedOff
        } else if managed && applet == Some(true) {
            PassStart::Redundant
        } else {
            PassStart::Run
        }),
{
    if managed && !enabled {
        return PassStart::TurnedOff;
    }
    if managed {
        if let Some(present) = applet {
            if present {
                return PassStart::Redundant;
            }
        }
    }
    PassStart::Run
}

/// One pass: reads the settings afresh, makes the tick's decisions, and says
/// what the screen should show, with the settings that say so.
pub fn run_pass(handler: &mut Option<Store>, setup: HostSetup, moment: Moment) -> (wanted: (
    TintState,
    Settings,
))
    ensures
        wanted.1 == decided_settings(
            loaded(handler_view(*old(handler))),
            setup == HostSetup::Ready,
            moment,
        ),
        wanted.0 == wanted.1.state_at(moment),
        handler_view(*final(handler)) == decided_store(
            handler_view(*old(handler)),
            loaded(handler_view(*old(handler))),
            setup == HostSetup::Ready,
            moment,
        ),
{
    let mut settings = Settings::load_from(handler);
    decide(handler, &mut settings, setup, moment);
    (settings.desired_at(moment), settings)
}

/// **Law.** A pass repeated at the same moment wants the same screen and writes
/// nothing more.
pub proof fn a_repeated_pass_writes_nothing(store: StoreView, ready: bool, moment: Moment)
    ensures
        ({
            let stored = decided_store(Some(store), loaded(Some(store)), ready, moment);
            &&& decided_settings(loaded(stored), ready, moment) == decided_settings(
                loaded(Some(store)),
                ready,
                moment,
            )
            &&& decided_store(stored, loaded(stored), ready, moment) == stored
        }),
{
    decisions_settle(store, ready, moment);
}

/// What is said once a state has been applied.
pub open spec fn applied_line(state: TintState) -> Seq<char> {
    match state {
        Some(kelvin) => "cosmic-nightlight: applied "@ + decimal(kelvin as nat) + "K"@,
        None => "cosmic-nightlight: cleared tint"@,
    }
}

/// What is said once a state has been applied.
pub fn applied_message(state: TintState) -> (line: String)
    ensures
        line@ == applied_line(state),
{
    match state {
        Some(kelvin) => "cosmic-nightlight: applied ".to_owned().concat(
            decimal_text(kelvin as u64).as_str(),
        ).concat("K"),
        None => "cosmic-nightlight: cleared tint".to_owned(),
    }
}

// ---------------------------------------------------------------------------
// Waiting for the session
// ---------------------------------------------------------------------------
/// The virtual terminal a text such as `tty2` names.
pub open spec fn terminal_in(active: Seq<char>) -> Option<nat> {
    match without_prefix(trim(active), "tty"@) {
        Some(number) => parse_unsigned(number, u32::MAX as nat),
        None => None,
    }
}

/// The active virtual terminal's number, given what
/// `/sys/class/tty/tty0/active` holds.
pub fn foreground_vt(active: &Option<String>) -> (vt: Option<u32>)
    ensures
        vt is Some <==> active is Some && terminal_in((active->0)@) is Some,
        vt is Some ==> vt->0 == terminal_in((active->0)@)->0,
{
    let text = match active {
        Some(text) => text.as_str(),
        None => {
            return None;
        },
    };
    match strip_prefix(trimmed(text), "tty") {
        Some(number) => parse_u32(number),
        None => None,
    }
}

/// What to do about the session at login.
#[derive(Clone, Copy, Debug, PartialEq, Eq, Structural)]
pub enum SessionWait {
    /// It is in the foreground, or there is nothing to wait for.
    Ready,
    /// It has taken too long; proceed anyway.
    TimedOut,
    /// Look again a little later.
    Wait,
}

/// Whether to wait for our graphical session to become the foreground virtual
/// terminal, so the first apply doesn't switch terminals during the handoff from
/// the greeter. `session` is what `XDG_VTNR` holds, `active` what
/// `/sys/class/tty/tty0/active` holds, and `waited_ms` how long this has been
/// going on.
pub fn wait_for_session_foreground(
    session: &Option<String>,
    active: &Option<String>,
    waited_ms: u64,
) -> (wait: SessionWait)
    ensures
        wait == ({
            let ours = if session is Some {
                parse_unsigned((session->0)@, u32::MAX as nat)
            } else {
                None
            };
            let theirs = if active is Some {
                terminal_in((active->0)@)
            } else {
                None
            };
            if ours is None || ours == theirs {
                SessionWait::Ready
            } else if waited_ms >= SESSION_READY_TIMEOUT_MS {
                SessionWait::TimedOut
            } else {
                SessionWait::Wait
            }
        }),
{
    let ours: u32 = match session {
        Some(text) => match parse_u32(text.as_str()) {
            Some(vt) => vt,
            None => {
                return SessionWait::Ready;
            },
        },
        None => {
            return SessionWait::Ready;
        },
    };
    if let Some(theirs) = foreground_vt(active) {
        if ours == theirs {
            return SessionWait::Ready;
        }
    }
    if waited_ms >= SESSION_READY_TIMEOUT_MS {
        SessionWait::TimedOut
    } else {
        SessionWait::Wait
    }
}

} // verus!
