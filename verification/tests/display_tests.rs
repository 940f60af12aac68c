use rinse::display::{gen_switcher, progress_string, state_string, time_string};
use rinse::queue::QueueEntry;
use rinse::status::{PlayState, PlaybackSnapshot};

fn snap(song: Option<usize>, nextsong: Option<usize>) -> PlaybackSnapshot {
    PlaybackSnapshot {
        state: PlayState::Play,
        song,
        nextsong,
        elapsed: Some(0),
        duration: Some(0),
        volume: 50,
        repeat: true,
        random: false,
        single: true,
        consume: false,
    }
}

fn queue_two() -> Vec<QueueEntry> {
    vec![
        QueueEntry {
            file: "a/now.flac".to_string(),
            title: Some("Now Playing".to_string()),
            album: None,
            artist: None,
        },
        QueueEntry {
            file: "b/next.flac".to_string(),
            title: Some("Next Up".to_string()),
            album: None,
            artist: None,
        },
    ]
}

#[test]
fn state_string_renders_toggles() {
    assert_eq!(state_string(true), "on");
    assert_eq!(state_string(false), "off");
}

#[test]
fn time_string_seconds_only() {
    assert_eq!(time_string(0), "0 seconds");
    assert_eq!(time_string(1), "1 second");
    assert_eq!(time_string(59), "59 seconds");
}

#[test]
fn time_string_minutes() {
    assert_eq!(time_string(61), "1 minute, 1 second");
    assert_eq!(time_string(125), "2 minutes, 5 seconds");
}

#[test]
fn time_string_hours_and_days() {
    assert_eq!(time_string(3600), "1 hour, 0 minutes, 0 seconds");
    assert_eq!(time_string(90061), "1 day, 1 hours, 1 minutes, 1 second");
}

#[test]
fn progress_string_empty_when_no_duration() {
    assert_eq!(progress_string(0, 0), "");
    assert_eq!(progress_string(5000, 0), "");
}

#[test]
fn progress_string_formats_and_pads() {
    assert_eq!(progress_string(61000, 245000), "[ 1:01 - 4:05 ]");
    assert_eq!(progress_string(5000, 600000), "[ 00:05 - 10:00 ]");
    assert_eq!(progress_string(0, 59999), "[ 0:00 - 0:59 ]");
}

#[test]
fn switcher_now_playing_phases() {
    let q = queue_two();
    let s = snap(Some(0), Some(1));
    assert_eq!(gen_switcher(0, &s, &q), "\u{f945}  Now Playing");
    assert_eq!(gen_switcher(1, &s, &q), "\u{f001}  Now Playing");
}

#[test]
fn switcher_next_up_phase() {
    let q = queue_two();
    let s = snap(Some(0), Some(1));
    assert_eq!(gen_switcher(2, &s, &q), "\u{f9ab}  Next Up");
}

#[test]
fn switcher_status_summary_phase() {
    let q = queue_two();
    let s = snap(Some(0), None);
    assert_eq!(
        gen_switcher(3, &s, &q),
        "\u{fa7d} 50  \u{f955} on  \u{f99e} off  \u{f957} on  \u{f912} off"
    );
}

#[test]
fn switcher_status_summary_negative_volume() {
    let q = queue_two();
    let mut s = snap(Some(0), None);
    s.volume = -1;
    s.repeat = false;
    s.single = false;
    assert_eq!(
        gen_switcher(3, &s, &q),
        "\u{fa7d} -1  \u{f955} off  \u{f99e} off  \u{f957} off  \u{f912} off"
    );
}
