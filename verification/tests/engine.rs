use cosmic_nightlight::brightness::Brightness;
use cosmic_nightlight::engine::{
    apply, is_root, parse_contract, reset, version_line, GammaWrite, KelvinRange, HELPER_CONTRACT,
};

#[test]
fn contract_survives_a_round_trip() {
    assert_eq!(parse_contract(&version_line("0.5.0")), Some(HELPER_CONTRACT));
}

#[test]
fn output_without_a_contract_reads_as_none() {
    // What a helper predating `--version` leaves on stdout: nothing, having
    // written a usage error to stderr and exited non-zero.
    assert_eq!(parse_contract(""), None);
    assert_eq!(parse_contract("cosmic-nightlight-helper 0.4.0"), None);
    assert_eq!(parse_contract("(contract )"), None);
}

#[test]
fn trailing_text_does_not_confuse_the_parse() {
    assert_eq!(parse_contract("x (contract 12) and more"), Some(12));
}

#[test]
fn the_version_line_reads_as_documented() {
    assert_eq!(
        version_line("0.5.0"),
        "cosmic-nightlight-helper 0.5.0 (contract 1)"
    );
    assert_eq!(parse_contract("(contract 4294967296)"), None);
}

const RANGE: KelvinRange = KelvinRange {
    min: 1000,
    max: 10000,
};

#[test]
fn temperatures_are_brought_into_the_range_the_ramps_can_show() {
    let half = Brightness {
        bits: 0.5f64.to_bits(),
    };
    assert_eq!(
        apply(500, half, Some(2), RANGE),
        GammaWrite {
            kelvin: 1000,
            brightness: half,
            session_vt: Some(2),
        }
    );
    assert_eq!(apply(3500, half, None, RANGE).kelvin, 3500);
    assert_eq!(apply(20000, half, None, RANGE).kelvin, 10000);
}

#[test]
fn resetting_is_neutral_at_full_brightness() {
    assert_eq!(
        reset(Some(3), RANGE),
        GammaWrite {
            kelvin: 6500,
            brightness: Brightness::full(),
            session_vt: Some(3),
        }
    );
}

#[test]
fn only_uid_zero_is_root() {
    assert!(is_root(0));
    assert!(!is_root(1000));
}
