//! What the privileged helper is asked to do, and how the app finds out which
//! command line an installed helper speaks.

use crate::brightness::{Brightness, ONE_BITS};
use crate::scan::{after_first, contains, first_occurs_at, lemma_after_first, occurs_at, text_after};
use crate::text::{chars_of, decimal, decimal_text, is_digit, parse_u32, parse_unsigned};
use vstd::prelude::*;

verus! {

/// The temperature at which there is no tint.
pub const NEUTRAL_KELVIN: u32 = 6500;

/// Version of the helper's command line, which is not the app's version.
///
/// An installed helper is not refreshed when the app updates, so what matters is
/// whether it still understands what the app sends. This moves only for a change
/// that would make an older helper mishandle that.
pub const HELPER_CONTRACT: u32 = 1;

/// Outcome of writing the gamma ramps.
#[derive(Clone, Copy, Debug, PartialEq, Eq, Structural)]
pub struct Applied {
    /// Number of display pipes whose gamma was updated.
    pub crtcs: usize,
}

/// The temperatures the gamma ramps can show.
#[derive(Clone, Copy, Debug, PartialEq, Eq, Structural)]
pub struct KelvinRange {
    pub min: u32,
    pub max: u32,
}

/// One write of the gamma ramps: what to show, and the virtual terminal of the
/// session to come back to.
#[derive(Clone, Copy, Debug, PartialEq, Eq, Structural)]
pub struct GammaWrite {
    pub kelvin: u32,
    pub brightness: Brightness,
    pub session_vt: Option<i32>,
}

/// `kelvin`, or the end of the range nearest to it.
pub open spec fn within(kelvin: u32, range: KelvinRange) -> u32 {
    if kelvin < range.min {
        range.min
    } else if kelvin > range.max {
        range.max
    } else {
        kelvin
    }
}

/// The write that puts a color temperature and brightness on every display.
pub fn apply(
    kelvin: u32,
    brightness: Brightness,
    session_vt: Option<i32>,
    range: KelvinRange,
) -> (write: GammaWrite)
    requires
        range.min <= range.max,
    ensures
        write == (GammaWrite { kelvin: within(kelvin, range), brightness, session_vt }),
{
    let kelvin = if kelvin < range.min {
        range.min
    } else if kelvin > range.max {
        range.max
    } else {
        kelvin
    };
    GammaWrite { kelvin, brightness, session_vt }
}

/// The write that resets every display to a neutral, untinted ramp.
pub fn reset(session_vt: Option<i32>, range: KelvinRange) -> (write: GammaWrite)
    requires
        range.min <= range.max,
    ensures
        write == (GammaWrite {
            kelvin: within(NEUTRAL_KELVIN, range),
            brightness: Brightness { bits: ONE_BITS },
            session_vt,
        }),
{
    apply(NEUTRAL_KELVIN, Brightness::full(), session_vt, range)
}

/// Whether a process with this effective user id is root, which writing the
/// ramps requires.
pub fn is_root(effective_uid: u32) -> (root: bool)
    ensures
        root == (effective_uid == 0),
{
    effective_uid == 0
}

/// What a helper of version `version` prints when asked for its version.
pub open spec fn version_text(version: Seq<char>) -> Seq<char> {
    "cosmic-nightlight-helper "@ + version + " (contract "@ + decimal(HELPER_CONTRACT as nat)
        + ")"@
}

/// The line `cosmic-nightlight-helper --version` prints.
pub fn version_line(version: &str) -> (line: String)
    ensures
        line@ == version_text(version@),
{
    let contract = decimal_text(HELPER_CONTRACT as u64);
    "cosmic-nightlight-helper ".to_owned().concat(version).concat(" (contract ").concat(
        contract.as_str(),
    ).concat(")")
}

/// How many digits `s` starts with.
pub open spec fn leading_digits(s: Seq<char>) -> nat
    decreases s.len(),
{
    if s.len() == 0 || !is_digit(s[0]) {
        0
    } else {
        1 + leading_digits(s.skip(1))
    }
}

/// The contract a helper's output names: the digits after the first
/// `(contract `, if there is one and they spell a number.
pub open spec fn contract_in(output: Seq<char>) -> Option<nat> {
    match after_first(output, "(contract "@) {
        Some(rest) => parse_unsigned(rest.take(leading_digits(rest) as int), u32::MAX as nat),
        None => None,
    }
}

/// Reads the contract number back out of a [`version_line`]. `None` for anything
/// that doesn't carry one, which callers treat as too old to trust.
pub fn parse_contract(output: &str) -> (contract: Option<u32>)
    ensures
        contract matches Some(c) ==> contract_in(output@) == Some(c as nat),
        contract is None ==> contract_in(output@) is None,
{
    let rest = match text_after(output, "(contract ") {
        Some(rest) => rest,
        None => {
            return None;
        },
    };
    let chars = chars_of(rest);
    let mut end: usize = 0;
    assert(rest@.skip(0) =~= rest@);
    while end < chars.len() && '0' <= chars[end] && chars[end] <= '9'
        invariant
            chars@ == rest@,
            end <= chars.len(),
            leading_digits(rest@) == end + leading_digits(rest@.skip(end as int)),
        decreases chars.len() - end,
    {
        assert(rest@.skip(end as int).skip(1) =~= rest@.skip(end as int + 1));
        end = end + 1;
    }
    let digits = rest.substring_char(0, end);
    assert(digits@ =~= rest@.take(end as int));
    parse_u32(digits)
}

/// **Law.** A version line carries the contract it was written with, for every
/// version that does not itself spell out a contract.
pub proof fn contract_round_trips(version: Seq<char>)
    requires
        !contains(version + seq![' '], "(contract "@),
    ensures
        contract_in(version_text(version)) == Some(HELPER_CONTRACT as nat),
{
    reveal_strlit("cosmic-nightlight-helper ");
    reveal_strlit(" (contract ");
    reveal_strlit("(contract ");
    reveal_strlit(")");
    let head = "cosmic-nightlight-helper "@;
    let part = "(contract "@;
    let number = decimal(HELPER_CONTRACT as nat);
    let whole = version_text(version);
    let at: int = head.len() as int + version.len() as int + 1;
    assert(number =~= seq!['1']);
    assert(whole.subrange(at, at + part.len()) =~= part);
    assert(occurs_at(whole, part, at));
    assert forall|other: int| 0 <= other < at implies !#[trigger] occurs_at(whole, part, other) by {
        if occurs_at(whole, part, other) {
            let found = whole.subrange(other, other + part.len());
            assert(found[0] == '(');
            assert(whole[other] == '(');
            if other < head.len() {
                assert(whole[other] == head[other]);
                assert(false);
            }
            if other + part.len() <= at {
                let inside = version + seq![' '];
                let start = other - head.len();
                assert(inside.subrange(start, start + part.len()) =~= found);
                assert(occurs_at(inside, part, start));
                assert(false);
            } else {
                assert(found[at - other] == whole[at]);
                assert(whole[at] == '(');
                assert(part[at - other] == '(');
                assert(false);
            }
        }
    }
    assert(first_occurs_at(whole, part, at));
    lemma_after_first(whole, part, at);
    let rest = whole.skip(at + part.len());
    assert(rest =~= seq!['1', ')']);
    reveal_with_fuel(leading_digits, 3);
    assert(rest.skip(1)[0] == ')');
    assert(leading_digits(rest) == 1);
    let digits = rest.take(1);
    assert(digits =~= number);
    crate::text::parse_undoes_decimal(HELPER_CONTRACT as nat, u32::MAX as nat);
}

} // verus!
