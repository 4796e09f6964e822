use sample_browser::browser::Browser;
use sample_browser::playback::{AudioCommand, OpenError, Slot};
use sample_browser::selection::{RowLayout, RowRange};

fn paths(names: &[&str]) -> Vec<String> {
    names.iter().map(|n| n.to_string()).collect()
}

fn open(path: &str, volume: u16) -> AudioCommand {
    AudioCommand::Open(path.to_string(), volume)
}

#[test]
fn down_twice_plays_next_rows() {
    let mut b = Browser::new();
    b.submit_results(paths(&["a.wav", "b.mp3", "c.wav"]));
    assert_eq!(b.selection.selected_index, 0);

    let cmds = b.key_down();
    assert_eq!(b.selection.selected_index, 1);
    assert!(b.selection.pending_scroll);
    assert_eq!(cmds, vec![open("b.mp3", 700)]);
    b.open_finished(Ok(()));
    assert!(b.take_scroll(RowLayout { area_top: 0, row_height: 20, spacing: 0, scroll_offset: 0 }).is_some());

    let cmds = b.key_down();
    assert_eq!(b.selection.selected_index, 2);
    assert!(b.selection.pending_scroll);
    assert_eq!(cmds, vec![AudioCommand::Release, open("c.wav", 700)]);
    assert_eq!(b.session.active_path, Some("c.wav".to_string()));
}

#[test]
fn down_at_last_row_restarts_it() {
    let mut b = Browser::new();
    b.submit_results(paths(&["a.wav", "b.mp3"]));
    b.key_down();
    b.open_finished(Ok(()));
    let cmds = b.key_down();
    assert_eq!(b.selection.selected_index, 1);
    assert_eq!(cmds, vec![AudioCommand::Release, open("b.mp3", 700)]);
}

#[test]
fn up_at_first_row_restarts_it() {
    let mut b = Browser::new();
    b.submit_results(paths(&["a.wav", "b.mp3"]));
    let cmds = b.key_up();
    assert_eq!(b.selection.selected_index, 0);
    assert!(b.selection.pending_scroll);
    assert_eq!(cmds, vec![open("a.wav", 700)]);
}

#[test]
fn empty_results_ignore_every_key() {
    let mut b = Browser::new();
    assert!(b.key_up().is_empty());
    assert!(b.key_down().is_empty());
    assert!(b.key_space().is_empty());
    assert!(b.key_right().is_empty());
    assert!(b.click_row(0).is_empty());
    assert_eq!(b.selection.selected_index, 0);
    assert!(!b.selection.pending_scroll);
    assert!(b.selection.results.is_empty());
    assert_eq!(b.session.slot, Slot::Idle);
    assert_eq!(b.session.active_path, None);
}

#[test]
fn missing_file_leaves_session_idle() {
    let mut b = Browser::new();
    b.submit_results(paths(&["old.wav", "missing.wav"]));
    b.key_right();
    b.open_finished(Ok(()));
    assert_eq!(b.session.slot, Slot::Playing);

    let cmds = b.click_row(1);
    assert_eq!(cmds, vec![AudioCommand::Release, open("missing.wav", 700)]);
    b.open_finished(Err(OpenError::NotFound));
    assert_eq!(b.session.slot, Slot::Idle);
    assert_eq!(b.session.active_path, None);
    assert_eq!(b.session.last_error, Some(OpenError::NotFound));
    // Nothing is left to pause or resume.
    assert!(b.key_space().is_empty());
    // Navigation still works after the failure.
    assert_eq!(b.key_up(), vec![open("old.wav", 700)]);
}

#[test]
fn click_replaces_playing_row_without_scroll() {
    let mut b = Browser::new();
    b.submit_results(paths(&["a.wav", "b.mp3", "c.wav"]));
    b.key_right();
    b.open_finished(Ok(()));
    b.take_scroll(RowLayout { area_top: 0, row_height: 20, spacing: 0, scroll_offset: 0 });
    let cmds = b.click_row(1);
    assert_eq!(b.selection.selected_index, 1);
    assert_eq!(cmds, vec![AudioCommand::Release, open("b.mp3", 700)]);
    assert!(!b.selection.pending_scroll);
    b.open_finished(Ok(()));
    assert_eq!(b.session.slot, Slot::Playing);
    assert_eq!(b.session.active_path, Some("b.mp3".to_string()));
}

#[test]
fn click_on_current_row_restarts_it() {
    let mut b = Browser::new();
    b.submit_results(paths(&["a.wav", "b.mp3"]));
    b.click_row(0);
    b.open_finished(Ok(()));
    assert_eq!(b.click_row(0), vec![AudioCommand::Release, open("a.wav", 700)]);
}

#[test]
fn click_past_end_selects_last_row() {
    let mut b = Browser::new();
    b.submit_results(paths(&["a.wav", "b.mp3"]));
    assert_eq!(b.click_row(9), vec![open("b.mp3", 700)]);
    assert_eq!(b.selection.selected_index, 1);
}

#[test]
fn new_query_replaces_list_and_resets_selection() {
    let mut b = Browser::new();
    b.submit_results(paths(&["d1.wav", "d2.wav", "d3.wav", "d4.wav", "d5.wav"]));
    b.key_down();
    b.key_down();
    b.open_finished(Ok(()));
    assert_eq!(b.selection.selected_index, 2);
    let session_before = b.session.clone();

    b.submit_results(paths(&["x.wav", "y.mp3"]));
    assert_eq!(b.selection.results, paths(&["x.wav", "y.mp3"]));
    assert_eq!(b.selection.selected_index, 0);
    assert_eq!(b.session.slot, session_before.slot);
    assert_eq!(b.session.active_path, Some("d3.wav".to_string()));
}

#[test]
fn submit_opens_nothing() {
    let mut b = Browser::new();
    b.submit_results(paths(&["a.wav"]));
    assert_eq!(b.session.slot, Slot::Idle);
    assert_eq!(b.session.active_path, None);
    assert!(!b.selection.pending_scroll);
}

#[test]
fn selection_stays_in_range() {
    let mut b = Browser::new();
    b.submit_results(paths(&["a.wav", "b.mp3", "c.wav"]));
    for _ in 0..5 {
        b.key_down();
        assert!(b.selection.selected_index < 3);
    }
    assert_eq!(b.selection.selected_index, 2);
    for _ in 0..5 {
        b.key_up();
        assert!(b.selection.selected_index < 3);
    }
    assert_eq!(b.selection.selected_index, 0);
}

#[test]
fn pause_then_resume_round_trips() {
    let mut b = Browser::new();
    b.submit_results(paths(&["a.wav"]));
    b.key_right();
    b.open_finished(Ok(()));
    assert_eq!(b.key_space(), vec![AudioCommand::Pause]);
    assert_eq!(b.session.slot, Slot::Paused);
    assert!(b.session.is_paused());
    assert_eq!(b.key_space(), vec![AudioCommand::Resume]);
    assert_eq!(b.session.slot, Slot::Playing);
    assert_eq!(b.session.active_path, Some("a.wav".to_string()));
}

#[test]
fn volume_set_while_idle_reaches_next_track() {
    let mut b = Browser::new();
    assert!(b.volume_changed(250).is_empty());
    assert_eq!(b.session.volume, 250);
    b.submit_results(paths(&["a.wav"]));
    assert_eq!(b.key_right(), vec![open("a.wav", 250)]);
}

#[test]
fn volume_is_clamped_and_applied_to_held_track() {
    let mut b = Browser::new();
    b.submit_results(paths(&["a.wav", "b.wav"]));
    b.key_right();
    b.open_finished(Ok(()));
    assert_eq!(b.volume_changed(5000), vec![AudioCommand::SetVolume(1000)]);
    assert_eq!(b.session.volume, 1000);
    assert_eq!(b.key_down(), vec![AudioCommand::Release, open("b.wav", 1000)]);
}

#[test]
fn open_errors_are_kept() {
    for e in [OpenError::NotFound, OpenError::UnsupportedFormat, OpenError::DeviceUnavailable] {
        let mut b = Browser::new();
        b.submit_results(paths(&["a.wav"]));
        b.key_right();
        b.open_finished(Err(e));
        assert_eq!(b.session.last_error, Some(e));
        assert_eq!(b.session.slot, Slot::Idle);
    }
}

#[test]
fn outcome_without_open_changes_nothing() {
    let mut b = Browser::new();
    b.open_finished(Err(OpenError::DeviceUnavailable));
    assert_eq!(b.session.slot, Slot::Idle);
    assert_eq!(b.session.last_error, None);
}

#[test]
fn scroll_is_issued_once() {
    let mut b = Browser::new();
    b.submit_results(paths(&["a.wav", "b.mp3", "c.wav", "d.wav"]));
    b.key_down();
    b.key_down();
    b.key_down();
    let layout = RowLayout { area_top: 40, row_height: 18, spacing: 4, scroll_offset: 10 };
    assert_eq!(b.take_scroll(layout), Some(RowRange { top: 96, bottom: 114 }));
    assert!(!b.selection.pending_scroll);
    assert_eq!(b.take_scroll(layout), None);
}

#[test]
fn scroll_waits_for_row_height() {
    let mut b = Browser::new();
    b.submit_results(paths(&["a.wav", "b.mp3"]));
    b.key_down();
    let unknown = RowLayout { area_top: 0, row_height: 0, spacing: 4, scroll_offset: 0 };
    assert_eq!(b.take_scroll(unknown), None);
    assert!(b.selection.pending_scroll);
    let known = RowLayout { area_top: 0, row_height: 20, spacing: 4, scroll_offset: 0 };
    assert_eq!(b.take_scroll(known), Some(RowRange { top: 24, bottom: 44 }));
}

#[test]
fn single_handle_across_many_starts() {
    let mut b = Browser::new();
    b.submit_results(paths(&["a.wav", "b.mp3", "c.wav"]));
    let mut handles: i32 = 0;
    let mut all = Vec::new();
    all.extend(b.key_down());
    all.extend(b.key_right());
    all.extend(b.click_row(0));
    all.extend(b.key_up());
    for c in all {
        match c {
            AudioCommand::Release => handles = 0,
            AudioCommand::Open(_, _) => handles += 1,
            _ => {}
        }
        assert!(handles <= 1);
    }
    assert_eq!(handles, 1);
}
