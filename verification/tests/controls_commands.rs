//! Volume, mute and playback-state logic around the command bridge.

use itunes_interface::controls::{mute_state, playing_state, set_volume_command};
use itunes_interface::text::{parse_u8, trim_spaces};

#[test]
fn volume_increase_builds_the_command_from_the_read_value() {
    // A volume read returning "50", increased by 25, issues a command
    // setting the volume to 75.
    let read_back = "50\r\n";
    let current = parse_u8(trim_spaces(read_back)).unwrap();
    assert_eq!(current, 50);
    let cmd = set_volume_command(current as u16 + 25);
    assert_eq!(cmd, "SoundVolume = 75");
    // A subsequent read of "75" coerces back to the value just set.
    assert_eq!(parse_u8(trim_spaces("75\r\n")), Some(75));
}

#[test]
fn volume_command_renders_the_exact_expression() {
    assert_eq!(set_volume_command(0), "SoundVolume = 0");
    assert_eq!(set_volume_command(100), "SoundVolume = 100");
    assert_eq!(set_volume_command(510), "SoundVolume = 510");
}

#[test]
fn mute_state_is_true_only_for_the_host_true_literal() {
    assert!(mute_state("True"));
    assert!(!mute_state("False"));
    assert!(!mute_state(""));
    assert!(!mute_state("true"));
}

#[test]
fn playing_state_is_true_only_for_state_one() {
    assert!(playing_state("1"));
    assert!(playing_state(" 1\r\n"));
    assert!(!playing_state("0"));
    assert!(!playing_state(""));
    assert!(!playing_state("2"));
}
