use mp3_player::catalog::Catalog;
use mp3_player::session::PlaybackSession;
use mp3_player::session::UserError;
use mp3_player::timefmt::format_duration;

fn strings(xs: &[&str]) -> Vec<String> {
    xs.iter().map(|s| s.to_string()).collect()
}

fn session_abc() -> PlaybackSession {
    let paths = strings(&["music/a.mp3", "music/b.mp3", "music/c.mp3"]);
    PlaybackSession::new(Catalog::from_paths(&paths))
}

fn load(session: &mut PlaybackSession, index: usize, total_ms: Option<u64>, now_ms: u64) {
    session.begin_load();
    session.finish_load(index, total_ms, now_ms);
}

#[test]
fn catalog_keeps_mp3_files_in_discovery_order() {
    let paths = strings(&[
        "music/a.mp3",
        "music/cover.png",
        "music/b.mp3",
        "notes.txt",
        "music/sub/c.mp3",
    ]);
    let catalog = Catalog::from_paths(&paths);
    assert_eq!(catalog.len(), 3);
    assert_eq!(catalog.path_at(0).as_str(), "music/a.mp3");
    assert_eq!(catalog.path_at(1).as_str(), "music/b.mp3");
    assert_eq!(catalog.path_at(2).as_str(), "music/sub/c.mp3");
    assert_eq!(catalog.name_at(0).as_str(), "a.mp3");
    assert_eq!(catalog.name_at(1).as_str(), "b.mp3");
    assert_eq!(catalog.name_at(2).as_str(), "c.mp3");
}

#[test]
fn catalog_extension_match_is_exact() {
    let paths = strings(&[
        "song.MP3",
        "song.mp4",
        ".mp3",
        "dir/.mp3",
        "x.mp3.bak",
        "plain",
        "s.mp3",
        "dir/..mp3",
    ]);
    let catalog = Catalog::from_paths(&paths);
    assert_eq!(catalog.len(), 2);
    assert_eq!(catalog.path_at(0).as_str(), "s.mp3");
    assert_eq!(catalog.path_at(1).as_str(), "dir/..mp3");
    assert_eq!(catalog.name_at(1).as_str(), "..mp3");
}

#[test]
fn catalog_of_nothing_is_empty() {
    let catalog = Catalog::from_paths(&strings(&[]));
    assert_eq!(catalog.len(), 0);
}

#[test]
fn fresh_session_is_empty() {
    let session = session_abc();
    assert_eq!(session.current_index(), None);
    let snap = session.snapshot(0);
    assert_eq!(snap.current_index, None);
    assert_eq!(snap.elapsed_ms, None);
    assert_eq!(snap.total_ms, None);
    assert!(!snap.is_paused);
}

#[test]
fn load_starts_playing_from_zero() {
    let mut session = session_abc();
    load(&mut session, 0, Some(180_000), 1_000);
    assert_eq!(session.current_index(), Some(0));
    let snap = session.snapshot(1_000);
    assert!(!snap.is_paused);
    assert_eq!(snap.elapsed_ms, Some(0));
    assert_eq!(snap.total_ms, Some(180_000));
    let later = session.elapsed_ms(6_000).unwrap();
    assert_eq!(later, 5_000);
    assert!(later <= 180_000);
}

#[test]
fn failed_load_leaves_empty_and_next_load_recovers() {
    let mut session = session_abc();
    load(&mut session, 0, Some(9_000), 0);
    // The file behind track 0 turns out corrupt on a reload: the driver
    // tears down and never completes the load.
    session.begin_load();
    assert_eq!(session.current_index(), None);
    assert_eq!(session.elapsed_ms(500), None);
    // A later load of a healthy track succeeds normally.
    load(&mut session, 1, Some(7_000), 2_000);
    assert_eq!(session.current_index(), Some(1));
    assert_eq!(session.elapsed_ms(2_000), Some(0));
}

#[test]
fn transport_walks_the_catalog() {
    let mut session = session_abc();
    load(&mut session, 0, None, 0);
    assert_eq!(session.current_index(), Some(0));

    let target = session.next_target();
    assert_eq!(target, Some(1));
    load(&mut session, 1, None, 10);
    assert_eq!(session.current_index(), Some(1));

    let target = session.next_target();
    assert_eq!(target, Some(2));
    load(&mut session, 2, None, 20);
    assert_eq!(session.current_index(), Some(2));

    // Already at the last track: next is a no-op.
    assert_eq!(session.next_target(), None);
    assert_eq!(session.current_index(), Some(2));

    let target = session.prev_target();
    assert_eq!(target, Some(1));
    load(&mut session, 1, None, 30);
    assert_eq!(session.current_index(), Some(1));
}

#[test]
fn no_op_transitions_leave_state_unchanged() {
    let mut session = session_abc();

    // togglePause while empty: reported error, no side effects.
    let before = session.snapshot(5);
    assert_eq!(session.toggle_pause(5), Err(UserError::NoActiveTrack));
    assert_eq!(session.snapshot(5), before);

    // prev at index 0 and next at the last index are no-ops.
    load(&mut session, 0, None, 0);
    assert_eq!(session.prev_target(), None);
    assert_eq!(session.current_index(), Some(0));
    load(&mut session, 2, None, 0);
    assert_eq!(session.next_target(), None);
    assert_eq!(session.current_index(), Some(2));
}

#[test]
fn pause_freezes_and_resume_continues() {
    let mut session = session_abc();
    load(&mut session, 0, Some(100_000), 0);

    assert_eq!(session.elapsed_ms(30_000), Some(30_000));
    assert_eq!(session.toggle_pause(30_000), Ok(true));
    assert!(session.snapshot(30_000).is_paused);
    // Frozen while paused: no jump to the total, however late the read.
    assert_eq!(session.elapsed_ms(30_000), Some(30_000));
    assert_eq!(session.elapsed_ms(90_000), Some(30_000));

    // Resume later: no reset to zero, the banked time carries on.
    assert_eq!(session.toggle_pause(40_000), Ok(false));
    assert!(!session.snapshot(40_000).is_paused);
    assert_eq!(session.elapsed_ms(40_000), Some(30_000));
    assert_eq!(session.elapsed_ms(50_000), Some(40_000));
}

#[test]
fn pause_resume_round_trip_without_clock_advance() {
    let mut session = session_abc();
    load(&mut session, 0, Some(100_000), 0);
    let before = session.elapsed_ms(25_000);
    assert_eq!(session.toggle_pause(25_000), Ok(true));
    assert_eq!(session.toggle_pause(25_000), Ok(false));
    assert_eq!(session.elapsed_ms(25_000), before);
    assert_eq!(before, Some(25_000));
}

#[test]
fn elapsed_is_monotonic_and_clamped_to_total() {
    let mut session = session_abc();
    load(&mut session, 0, Some(10_000), 0);
    let reads = [
        session.elapsed_ms(0).unwrap(),
        session.elapsed_ms(4_000).unwrap(),
        session.elapsed_ms(9_999).unwrap(),
        session.elapsed_ms(12_000).unwrap(),
        session.elapsed_ms(50_000).unwrap(),
    ];
    for pair in reads.windows(2) {
        assert!(pair[0] <= pair[1]);
    }
    for r in reads {
        assert!(r <= 10_000);
    }
    assert_eq!(session.elapsed_ms(12_000), Some(10_000));
}

#[test]
fn elapsed_reported_even_without_total() {
    let mut session = session_abc();
    load(&mut session, 1, None, 1_000);
    assert_eq!(session.elapsed_ms(8_000), Some(7_000));
    assert_eq!(session.snapshot(8_000).total_ms, None);
}

#[test]
fn clock_reading_before_epoch_start_reads_zero() {
    let mut session = session_abc();
    load(&mut session, 0, Some(1_000), 100);
    assert_eq!(session.elapsed_ms(50), Some(0));
}

#[test]
fn one_sink_attached_at_a_time() {
    let mut session = session_abc();
    // Nothing attached yet: the first load has nothing to tear down.
    assert!(!session.begin_load());
    session.finish_load(0, Some(5_000), 0);
    // Loading over a playing track: exactly the one old sink must go.
    assert!(session.begin_load());
    assert_eq!(session.current_index(), None);
    session.finish_load(1, Some(5_000), 10);
    assert_eq!(session.current_index(), Some(1));
    // And again: still exactly one attached.
    assert!(session.begin_load());
}

#[test]
fn format_duration_renders_mm_ss() {
    assert_eq!(format_duration(0), "00:00");
    assert_eq!(format_duration(5), "00:05");
    assert_eq!(format_duration(61), "01:01");
    assert_eq!(format_duration(599), "09:59");
    assert_eq!(format_duration(3_599), "59:59");
    assert_eq!(format_duration(3_600), "60:00");
    assert_eq!(format_duration(6_154), "102:34");
}
