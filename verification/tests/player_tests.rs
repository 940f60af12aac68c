use rinse::player::PlayerCore;
use rinse::queue::{gen_title, QueueEntry};
use rinse::status::{more_phase, PlayState, PlaybackSnapshot};

fn entry(file: &str, title: Option<&str>) -> QueueEntry {
    QueueEntry {
        file: file.to_string(),
        title: title.map(|s| s.to_string()),
        album: None,
        artist: None,
    }
}

fn queue_three() -> Vec<QueueEntry> {
    vec![
        entry("a/one.flac", Some("One")),
        entry("b/two.flac", Some("Two")),
        entry("c/three.flac", Some("Three")),
    ]
}

fn snap(song: usize, nextsong: Option<usize>) -> PlaybackSnapshot {
    PlaybackSnapshot {
        state: PlayState::Play,
        song: Some(song),
        nextsong,
        elapsed: Some(1000),
        duration: Some(180000),
        volume: 40,
        repeat: false,
        random: false,
        single: false,
        consume: false,
    }
}

#[test]
fn more_phase_resolves_by_next_song() {
    assert_eq!(more_phase(&snap(0, Some(1))), 2);
    assert_eq!(more_phase(&snap(0, None)), 3);
}

#[test]
fn new_core_starts_on_current_song() {
    let core = PlayerCore::new(queue_three(), snap(1, Some(2)));
    assert_eq!(core.current_pos, 1);
    assert_eq!(core.selected, 1);
    assert_eq!(core.selected_pos, 1);
    assert!(!core.interacted);
    assert!(core.need_list_scroll);
    assert_eq!(core.cycle, 2);
    assert_eq!(core.list.len(), 3);
    assert_eq!(core.switcher, "\u{f9ab}  Three");
}

#[test]
fn failed_poll_changes_nothing() {
    let mut core = PlayerCore::new(queue_three(), snap(0, Some(1)));
    let cycle = core.cycle;
    let switcher = core.switcher.clone();
    let snapshot = core.snapshot;
    let reset = core.tick(None, true);
    assert!(!reset);
    assert_eq!(core.cycle, cycle);
    assert_eq!(core.switcher, switcher);
    assert_eq!(core.snapshot.song, snapshot.song);
    assert_eq!(core.snapshot.nextsong, snapshot.nextsong);
    assert_eq!(core.snapshot.elapsed, snapshot.elapsed);
    assert_eq!(core.snapshot.duration, snapshot.duration);
    assert_eq!(core.snapshot.volume, snapshot.volume);
    assert_eq!(core.current_pos, 0);
    assert_eq!(core.selected_pos, 0);
}

#[test]
fn transition_follows_when_not_interacted() {
    let mut core = PlayerCore::new(queue_three(), snap(0, Some(1)));
    let reset = core.tick(Some(snap(1, Some(2))), false);
    assert!(reset);
    assert_eq!(core.current_pos, 1);
    assert_eq!(core.selected, 1);
    assert_eq!(core.selected_pos, 1);
    assert!(core.need_list_scroll);
    // selection follows, so the phase is the regular `more`
    assert_eq!(core.cycle, 2);
    assert_eq!(core.switcher, "\u{f9ab}  Three");
}

#[test]
fn transition_keeps_selection_when_interacted() {
    let mut core = PlayerCore::new(queue_three(), snap(0, Some(1)));
    core.click_select(2);
    assert!(core.interacted);
    let reset = core.tick(Some(snap(1, Some(2))), false);
    assert!(reset);
    assert_eq!(core.selected, 2);
    assert_eq!(core.selected_pos, 2);
    // diverged with a next track: the phase previews now-playing as phase 1
    assert_eq!(core.cycle, 1);
    assert_eq!(core.switcher, "\u{f001}  Two");
}

#[test]
fn transition_without_next_goes_to_phase_zero_when_diverged() {
    let mut core = PlayerCore::new(queue_three(), snap(0, None));
    core.click_select(2);
    let reset = core.tick(Some(snap(1, None)), false);
    assert!(reset);
    assert_eq!(core.cycle, 0);
    assert_eq!(core.switcher, "\u{f945}  Two");
}

#[test]
fn rotation_advances_by_table() {
    let mut core = PlayerCore::new(queue_three(), snap(0, Some(1)));
    assert_eq!(core.cycle, 2);
    // 2 -> 3
    assert!(core.tick(Some(snap(0, Some(1))), true));
    assert_eq!(core.cycle, 3);
    // 3 with selection on the current song -> more == 2
    assert!(core.tick(Some(snap(0, Some(1))), true));
    assert_eq!(core.cycle, 2);
    // no timeout: nothing moves
    assert!(!core.tick(Some(snap(0, Some(1))), false));
    assert_eq!(core.cycle, 2);
}

#[test]
fn rotation_from_phase_zero_previews_after_summary() {
    // reach phase 0: diverged selection, transition, no next track
    let mut core = PlayerCore::new(queue_three(), snap(0, None));
    core.click_select(2);
    core.tick(Some(snap(1, None)), false);
    assert_eq!(core.cycle, 0);
    // a timeout in phase 0 always shows the status summary first
    assert!(core.tick(Some(snap(1, Some(2))), true));
    assert_eq!(core.cycle, 3);
    // next timeout, selection still diverged and a next track exists: phase 1
    assert!(core.tick(Some(snap(1, Some(2))), true));
    assert_eq!(core.cycle, 1);
    // and phase 1 leads to the next-up preview
    assert!(core.tick(Some(snap(1, Some(2))), true));
    assert_eq!(core.cycle, 2);
}

#[test]
fn phase_two_unreachable_without_next_song() {
    let mut core = PlayerCore::new(queue_three(), snap(0, None));
    assert_eq!(core.cycle, 3);
    core.click_select(2);
    for _ in 0..6 {
        core.tick(Some(snap(0, None)), true);
        assert!(core.cycle == 0 || core.cycle == 3);
    }
    // with the selection back on the current song the rotation sits on 3
    core.reset();
    for _ in 0..4 {
        core.tick(Some(snap(0, None)), true);
        assert_eq!(core.cycle, 3);
    }
}

#[test]
fn reset_clears_interaction_and_snaps_selection() {
    let mut core = PlayerCore::new(queue_three(), snap(1, Some(2)));
    core.set_query("two".to_string());
    core.click_select(0);
    assert!(core.interacted);
    core.reset();
    assert!(!core.interacted);
    assert_eq!(core.selected_pos, core.current_pos);
    assert_eq!(core.selected, core.current_pos);
    assert!(core.need_list_scroll);
    assert!(core.search_query.is_empty());
    assert_eq!(core.list.len(), 3);
}

#[test]
fn set_query_selects_best_match() {
    let mut core = PlayerCore::new(queue_three(), snap(0, Some(1)));
    core.set_query("three".to_string());
    assert!(core.interacted);
    assert_eq!(core.selected, 0);
    assert_eq!(core.list.len(), 1);
    assert_eq!(core.list[0].title, "Three");
    assert_eq!(core.selected_pos, 2);
}

#[test]
fn set_query_without_matches_pins_current_song() {
    let mut core = PlayerCore::new(queue_three(), snap(1, Some(2)));
    core.set_query("zzzz no match".to_string());
    assert!(core.list.is_empty());
    assert_eq!(core.selected, 0);
    assert_eq!(core.selected_pos, 1);
}

#[test]
fn clearing_query_restores_identity_list() {
    let mut core = PlayerCore::new(queue_three(), snap(1, Some(2)));
    core.set_query("three".to_string());
    core.set_query(String::new());
    assert!(!core.interacted);
    assert_eq!(core.list.len(), 3);
    assert_eq!(core.selected, 1);
    assert_eq!(core.selected_pos, 1);
    assert!(core.need_list_scroll);
}

#[test]
fn tab_cycle_wraps_both_ways() {
    let mut core = PlayerCore::new(queue_three(), snap(0, Some(1)));
    core.tab_cycle(false);
    assert_eq!(core.selected, 1);
    assert!(core.interacted);
    core.tab_cycle(false);
    core.tab_cycle(false);
    assert_eq!(core.selected, 0);
    core.tab_cycle(true);
    assert_eq!(core.selected, 2);
    assert_eq!(core.selected_pos, 2);
}

#[test]
fn scroll_marks_divergence_and_stops_autoscroll() {
    let mut core = PlayerCore::new(queue_three(), snap(0, Some(1)));
    assert!(!core.interacted);
    core.scroll_moved();
    assert!(core.interacted);
    assert!(!core.need_list_scroll);
    // a second scroll changes nothing further
    core.scroll_moved();
    assert!(core.interacted);
}

#[test]
fn pointer_press_marks_divergence() {
    let mut core = PlayerCore::new(queue_three(), snap(0, Some(1)));
    core.pointer_pressed();
    assert!(core.interacted);
    assert_eq!(core.selected, 0);
}

#[test]
fn gen_title_prefers_tag_over_file_name() {
    assert_eq!(gen_title(&entry("a/b/file.flac", Some("Tagged"))), "Tagged");
    assert_eq!(gen_title(&entry("a/b/file.flac", None)), "file.flac");
    assert_eq!(gen_title(&entry("bare.flac", None)), "bare.flac");
}
