//! Calls that reach the real scripting host, with whatever this machine
//! offers: every outcome must fall in the promised classification.

use itunes_interface::bridge::Itunes;
use itunes_interface::controls::ItunesPlayerControls;
use itunes_interface::error::BridgeError;

#[test]
fn property_read_failures_are_classified_as_host_errors() {
    let itunes = Itunes::new();
    match itunes.get_property("SoundVolume") {
        Ok(_) => {}
        Err(e) => assert!(matches!(
            e,
            BridgeError::SpawnFailure | BridgeError::ExecutionError
        )),
    }
}

#[test]
fn command_failures_are_classified_as_host_errors() {
    let itunes = Itunes::new();
    match itunes.property("pause()") {
        Ok(_) => {}
        Err(e) => assert!(matches!(
            e,
            BridgeError::SpawnFailure | BridgeError::ExecutionError
        )),
    }
}

#[test]
fn controls_construction_reports_host_errors() {
    let itunes = Itunes::new();
    match ItunesPlayerControls::new(&itunes) {
        Ok(_) => {}
        Err(e) => assert!(matches!(
            e,
            BridgeError::SpawnFailure | BridgeError::ExecutionError
        )),
    }
}

#[test]
fn repeated_reads_share_no_mutable_state() {
    // The bridge holds only immutable template text, so two identical reads
    // against an unchanged external state return the same outcome.
    let itunes = Itunes::new();
    let first = itunes.get_property("CurrentTrack");
    let second = itunes.get_property("CurrentTrack");
    // A live player may change between the two reads; only identical
    // outcome kinds are compared.
    match (first, second) {
        (Err(a), Err(b)) => assert_eq!(a, b),
        _ => {}
    }
}
