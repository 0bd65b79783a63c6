//! The typed song snapshot and the minutes:seconds formatting.

use itunes_interface::bridge::{track_loaded, Itunes};
use itunes_interface::error::BridgeError;
use itunes_interface::response::parse_response;
use itunes_interface::song::{empty_song_info, format_seconds, song_info_from_values, SongInterface};

#[test]
fn formats_minutes_and_seconds_with_two_digit_seconds() {
    assert_eq!(format_seconds(0), "0:00");
    assert_eq!(format_seconds(59), "0:59");
    assert_eq!(format_seconds(60), "1:00");
    assert_eq!(format_seconds(125), "2:05");
    assert_eq!(format_seconds(245), "4:05");
    assert_eq!(format_seconds(255), "4:15");
}

#[test]
fn song_interface_formats_like_the_free_helper() {
    let itunes = Itunes::new();
    let si = SongInterface::new(&itunes);
    assert_eq!(si.format_m_s(65), "1:05");
    assert_eq!(si.format_m_s(125), "2:05");
    assert_eq!(si.format_progress(65), "1:05");
    assert_eq!(si.format_progress(125), "2:05");
}

#[test]
fn no_track_loaded_means_empty_snapshot() {
    assert!(!track_loaded(""));
    assert!(track_loaded("ITDetailedTrack"));
    let info = empty_song_info();
    assert_eq!(info.name, "");
    assert_eq!(info.artist, "");
    assert_eq!(info.album, "");
    assert_eq!(info.duration, 0);
    assert_eq!(info.progress, 0);
    assert_eq!(info.time, "0:00");
    assert_eq!(info.formatted_progress, "0:00");
}

#[test]
fn loaded_track_snapshot_formats_duration_and_progress() {
    let info = song_info_from_values("65", "Song A", "Album C", "Artist B", " 245 ", "4:05")
        .unwrap();
    assert_eq!(info.name, "Song A");
    assert_eq!(info.album, "Album C");
    assert_eq!(info.artist, "Artist B");
    assert_eq!(info.progress, 65);
    assert_eq!(info.duration, 245);
    assert_eq!(info.time, "4:05");
    assert_eq!(info.formatted_progress, "1:05");
}

#[test]
fn malformed_numbers_are_a_typed_coercion_failure() {
    let r = song_info_from_values("N/A", "n", "al", "ar", "245", "4:05");
    assert!(matches!(r, Err(BridgeError::Coercion)));
    let r = song_info_from_values("65", "n", "al", "ar", "not a number", "4:05");
    assert!(matches!(r, Err(BridgeError::Coercion)));
}

#[test]
fn batch_probe_feeds_the_snapshot_positionally() {
    let props = vec![
        "PlayerPosition",
        "CurrentTrack.Name",
        "CurrentTrack.Album",
        "CurrentTrack.Artist",
        "CurrentTrack.Duration",
        "CurrentTrack.Time",
    ];
    let raw = "65\nSong A\nAlbum C\nArtist B\n245\n4:05\n";
    let resp = parse_response(raw, &props).unwrap();
    let info = song_info_from_values(
        resp.value_at(0),
        resp.value_at(1),
        resp.value_at(2),
        resp.value_at(3),
        resp.value_at(4),
        resp.value_at(5),
    )
    .unwrap();
    assert_eq!(info.progress, 65);
    assert_eq!(info.name, "Song A");
    assert_eq!(info.duration, 245);
    assert_eq!(info.formatted_progress, "1:05");
}
