//! What the panel applet and the settings window share: what they ask of the
//! screen, and how they word a temperature.

use crate::brightness::Brightness;
use crate::config::{Override, Settings};
use crate::record::TintState;
use crate::text::{decimal, decimal_text};
use crate::tick::Moment;
use vstd::prelude::*;

verus! {

/// Something to be done to the screen, on the apply thread.
#[derive(Clone, Copy, Debug, PartialEq, Eq, Structural)]
pub enum ScreenChange {
    /// A toggle the user flipped: apply it whether or not the screen already
    /// shows it, and report back. `previous` is the override to fall back to if
    /// it doesn't land.
    Toggle { state: TintState, brightness: Brightness, previous: Override },
    /// Apply this whether or not the screen already shows it.
    Force { state: TintState, brightness: Brightness },
    /// Bring the screen in line with this, if it isn't.
    Reconcile { state: TintState, brightness: Brightness },
}

/// What puts the settings as they stand on the screen.
pub open spec fn showing(settings: Settings, moment: Moment) -> ScreenChange {
    ScreenChange::Reconcile { state: settings.state_at(moment), brightness: settings.brightness }
}

/// Puts the settings as they stand on the screen. Decides nothing and stores
/// nothing, so it is safe to run on every change.
pub fn show_current(settings: &Settings, moment: Moment) -> (change: ScreenChange)
    ensures
        change == showing(*settings, moment),
{
    ScreenChange::Reconcile {
        state: settings.desired_at(moment),
        brightness: settings.brightness,
    }
}

/// What pushes a changed temperature or brightness, if anything does.
pub open spec fn pushing(settings: Settings, moment: Moment) -> Option<ScreenChange> {
    if settings.on_at(moment) {
        Some(
            ScreenChange::Force {
                state: Some(settings.temperature),
                brightness: settings.brightness,
            },
        )
    } else {
        None
    }
}

/// Pushes the current temperature and brightness to the screen, but only if a
/// tint is up: with the night light off the screen shows a neutral ramp, which
/// neither affects, so applying would cost a flicker for no change.
pub fn apply_if_tinted(settings: &Settings, moment: Moment) -> (change: Option<ScreenChange>)
    ensures
        change == pushing(*settings, moment),
{
    if settings.tint_on_at(moment.minute_of_day, moment.sun) {
        Some(
            ScreenChange::Force {
                state: Some(settings.temperature),
                brightness: settings.brightness,
            },
        )
    } else {
        None
    }
}

/// The largest temperature a label spells out.
pub const LARGEST_LABEL: u32 = 2_147_483_647;

/// How a temperature is labelled.
pub open spec fn temperature_text(kelvin: int) -> Seq<char> {
    let shown = if kelvin > LARGEST_LABEL {
        LARGEST_LABEL as int
    } else {
        kelvin
    };
    "Temperature: "@ + decimal(shown as nat) + "K"@
}

/// Labels a temperature.
pub fn temperature_label(kelvin: u32) -> (label: String)
    ensures
        label@ == temperature_text(kelvin as int),
{
    let shown = if kelvin > LARGEST_LABEL {
        LARGEST_LABEL
    } else {
        kelvin
    };
    "Temperature: ".to_owned().concat(decimal_text(shown as u64).as_str()).concat("K")
}

} // verus!
