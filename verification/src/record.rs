//! The record of what is on screen, as the processes share it.
//!
//! Every apply is visible as a brief flicker, so whichever process puts a tint
//! up writes down what it did, and the others read that before acting.

use crate::text::{
    decimal, decimal_text, lemma_decimal, lemma_digits_unspaced, lemma_trim_unspaced, parse_u32,
    parse_undoes_decimal, parse_unsigned, same_text, trim, trimmed, unspaced,
};
use vstd::prelude::*;

verus! {

/// What the displays are showing: `None` for a neutral (untinted) ramp,
/// `Some(kelvin)` for a tint at that temperature.
pub type TintState = Option<u32>;

/// How a tint state is written down.
pub open spec fn applied_text(state: TintState) -> Seq<char> {
    match state {
        Some(kelvin) => decimal(kelvin as nat),
        None => "off"@,
    }
}

/// The tint state a record describes. `None` means the record is unreadable,
/// which is "unknown" and never "off".
pub open spec fn read_applied(text: Seq<char>) -> Option<TintState> {
    let inner = trim(text);
    if inner == "off"@ {
        Some(None)
    } else {
        match parse_unsigned(inner, u32::MAX as nat) {
            Some(kelvin) => Some(Some(kelvin as u32)),
            None => None,
        }
    }
}

/// Parses a recorded tint state, or `None` if the record is unreadable, so a
/// corrupt record can't convince anyone that a tint which was never applied is
/// already up.
pub fn parse_applied(text: &str) -> (state: Option<TintState>)
    ensures
        state == read_applied(text@),
{
    let inner = trimmed(text);
    if same_text(inner, "off") {
        return Some(None);
    }
    match parse_u32(inner) {
        Some(kelvin) => Some(Some(kelvin)),
        None => None,
    }
}

/// Writes a tint state down.
pub fn format_applied(state: TintState) -> (text: String)
    ensures
        text@ == applied_text(state),
{
    match state {
        Some(kelvin) => decimal_text(kelvin as u64),
        None => "off".to_owned(),
    }
}

/// A written tint state is one word.
pub proof fn lemma_applied_text(state: TintState)
    ensures
        applied_text(state).len() > 0,
        unspaced(applied_text(state)),
{
    match state {
        Some(kelvin) => {
            lemma_decimal(kelvin as nat);
            lemma_digits_unspaced(applied_text(state));
        },
        None => {
            reveal_strlit("off");
        },
    }
}

/// **Law.** What was written down reads back as the state it described.
pub proof fn applied_round_trips(state: TintState)
    ensures
        read_applied(applied_text(state)) == Some(state),
{
    lemma_applied_text(state);
    lemma_trim_unspaced(applied_text(state));
    match state {
        Some(kelvin) => {
            reveal_strlit("off");
            lemma_decimal(kelvin as nat);
            let text = applied_text(state);
            assert(crate::text::is_digit(text[0]));
            assert("off"@[0] == 'o');
            parse_undoes_decimal(kelvin as nat, u32::MAX as nat);
        },
        None => {},
    }
}

/// **Law.** A record reads as "off" only when it says so: anything unreadable
/// is unknown instead.
pub proof fn only_off_reads_as_off(text: Seq<char>)
    ensures
        read_applied(text) == Some(None::<u32>) <==> trim(text) == "off"@,
{
}

} // verus!
