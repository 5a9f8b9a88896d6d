use sundaystudio::audio::playback::timeline_len;
use sundaystudio::commands::audio::{
    capture_track_ids, check_not_recording, check_regions_to_play, check_same_project,
    check_tracks_to_play, tracks_with_audio,
};
use sundaystudio::commands::edit::{
    check_import_rate, check_import_request, import_targets, import_track_name, ImportTarget,
};
use sundaystudio::commands::export::{
    check_export_audible, check_regions_to_export, mix_plan, TrackMix,
};
use sundaystudio::error::AppError;
use sundaystudio::project::registry::{
    find, register, register_entry, remove, update_meta, ProjectMeta,
};
use sundaystudio::project::scast::{
    backup_epoch, backup_stem, prune_marks, push_recent_entry, RecentProject, MAX_BACKUPS,
    MAX_RECENT,
};
use sundaystudio::text::parse_u64;

// ── the project registry ────────────────────────────────────────────────────

fn registered(names: &[&str]) -> Vec<ProjectMeta> {
    let mut list = Vec::new();
    for (i, name) in names.iter().enumerate() {
        register_entry(
            &mut list,
            format!("id-{i}"),
            name,
            format!("/p/{name}.scast"),
            1_000 + i as u64,
        )
        .unwrap();
    }
    list
}

#[test]
fn empty_registry_returns_empty_list() {
    let list: Vec<ProjectMeta> = Vec::new();
    assert!(list.is_empty());
    assert!(find(&list, "anything").is_err());
}

#[test]
fn register_creates_entry_with_unique_id() {
    let mut list = Vec::new();
    let a = register(&mut list, "Alpha", "/a.scast".into(), 1).unwrap();
    let b = register(&mut list, "Beta", "/b.scast".into(), 2).unwrap();
    assert_ne!(a.id, b.id);
    assert_eq!(a.id.len(), 36);
    for (k, c) in a.id.chars().enumerate() {
        if [8, 13, 18, 23].contains(&k) {
            assert_eq!(c, '-');
        } else {
            assert!(c.is_ascii_digit() || ('a'..='f').contains(&c));
        }
    }
    assert_eq!(a.id.chars().nth(14), Some('7'));
    assert!(matches!(a.id.chars().nth(19), Some('8' | '9' | 'a' | 'b')));
    assert_eq!(a.name, "Alpha");
    assert_eq!(b.name, "Beta");
}

#[test]
fn register_persists_across_loads() {
    let mut list = Vec::new();
    let entry = register(&mut list, "Sunday Recap", "/sr.scast".into(), 7).unwrap();
    assert_eq!(list.len(), 1);
    assert_eq!(list[0].id, entry.id);
    assert_eq!(list[0].name, "Sunday Recap");
    assert_eq!(list[0].path, "/sr.scast");
}

#[test]
fn register_newest_first() {
    let mut list = Vec::new();
    register(&mut list, "First", "/a.scast".into(), 1).unwrap();
    register(&mut list, "Second", "/b.scast".into(), 2).unwrap();
    // Most recent is at index 0.
    assert_eq!(list[0].name, "Second");
    assert_eq!(list[1].name, "First");
}

#[test]
fn register_rejects_empty_name() {
    let mut list = Vec::new();
    assert!(register(&mut list, "  ", "/a.scast".into(), 1).is_err());
    assert!(register(&mut list, "", "/a.scast".into(), 1).is_err());
    assert!(list.is_empty());
}

#[test]
fn register_trims_the_name_and_stamps_both_times() {
    let mut list = Vec::new();
    let e = register_entry(&mut list, "a".into(), "  Sunday  ", "/p/a.scast".into(), 42).unwrap();
    assert_eq!(e.name, "Sunday");
    assert_eq!(e.created_at, 42);
    assert_eq!(e.updated_at, 42);
    assert_eq!(list, vec![e]);
}

#[test]
fn blank_names_are_refused_with_the_validation_message() {
    let mut list = registered(&["Keep"]);
    let err = register_entry(&mut list, "x".into(), "   ", "/p".into(), 1).unwrap_err();
    match err {
        AppError::Validation(m) => assert_eq!(m, "project name cannot be empty"),
        other => panic!("unexpected {other:?}"),
    }
    assert_eq!(list, registered(&["Keep"]));
}

#[test]
fn find_returns_entry_by_id() {
    let mut list = Vec::new();
    let entry = register(&mut list, "My Podcast", "/p.scast".into(), 3).unwrap();
    let found = find(&list, &entry.id).unwrap();
    assert_eq!(found, entry);
}

#[test]
fn find_errors_on_missing_id() {
    let list: Vec<ProjectMeta> = Vec::new();
    let err = find(&list, "no-such-id").unwrap_err();
    assert_eq!(err.code(), "not_found");
    match err {
        AppError::NotFound { entity, id } => {
            assert_eq!(entity, "project");
            assert_eq!(id, "no-such-id");
        }
        other => panic!("unexpected {other:?}"),
    }
}

#[test]
fn update_meta_changes_name_and_bumps_updated_at() {
    let mut list = Vec::new();
    let entry = register(&mut list, "Old Name", "/p.scast".into(), 100).unwrap();
    let updated = update_meta(&mut list, &entry.id, "New Name", 200).unwrap();
    assert_eq!(updated.name, "New Name");
    assert_eq!(updated.id, entry.id);
    assert!(updated.updated_at >= entry.updated_at);
    assert_eq!(updated.updated_at, 200);
    assert_eq!(updated.created_at, 100);
    assert_eq!(list[0].name, "New Name");
}

#[test]
fn update_meta_rejects_empty_name() {
    let mut list = Vec::new();
    let entry = register(&mut list, "Name", "/p.scast".into(), 1).unwrap();
    assert!(update_meta(&mut list, &entry.id, "", 2).is_err());
    assert!(update_meta(&mut list, &entry.id, "   ", 2).is_err());
    // The name is unchanged.
    assert_eq!(find(&list, &entry.id).unwrap().name, "Name");
}

#[test]
fn update_meta_errors_on_missing_id() {
    let mut list = Vec::new();
    assert!(update_meta(&mut list, "ghost", "X", 1).is_err());
}

#[test]
fn rename_refuses_blank_names_before_unknown_ids() {
    let mut list = registered(&["A"]);
    assert_eq!(update_meta(&mut list, "missing", " ", 5).unwrap_err().code(), "validation");
    assert_eq!(update_meta(&mut list, "missing", "X", 5).unwrap_err().code(), "not_found");
    assert_eq!(list, registered(&["A"]));
}

#[test]
fn rename_keeps_the_other_entries() {
    let mut list = registered(&["A", "B"]);
    let e = update_meta(&mut list, "id-0", "  Renamed ", 9_999).unwrap();
    assert_eq!(e.name, "Renamed");
    assert_eq!(e.created_at, 1_000);
    assert_eq!(find(&list, "id-0").unwrap(), e);
    assert_eq!(find(&list, "id-1").unwrap().name, "B");
}

#[test]
fn remove_deletes_entry() {
    let mut list = Vec::new();
    let a = register(&mut list, "A", "/a.scast".into(), 1).unwrap();
    let b = register(&mut list, "B", "/b.scast".into(), 2).unwrap();
    remove(&mut list, &a.id).unwrap();
    assert_eq!(list.len(), 1);
    assert_eq!(list[0].id, b.id);
}

#[test]
fn remove_errors_on_missing_id() {
    let mut list: Vec<ProjectMeta> = Vec::new();
    assert!(remove(&mut list, "ghost").is_err());
}

#[test]
fn remove_does_not_affect_other_entries() {
    let mut list = Vec::new();
    let a = register(&mut list, "A", "/a.scast".into(), 1).unwrap();
    let b = register(&mut list, "B", "/b.scast".into(), 2).unwrap();
    let c = register(&mut list, "C", "/c.scast".into(), 3).unwrap();
    remove(&mut list, &b.id).unwrap();
    assert_eq!(list.len(), 2);
    let ids: Vec<_> = list.iter().map(|e| &e.id).collect();
    assert!(ids.contains(&&c.id));
    assert!(ids.contains(&&a.id));
    assert!(!ids.contains(&&b.id));
}

#[test]
fn remove_keeps_the_others_in_order() {
    let mut list = registered(&["A", "B", "C"]);
    remove(&mut list, "id-1").unwrap();
    let names: Vec<&str> = list.iter().map(|e| e.name.as_str()).collect();
    assert_eq!(names, vec!["C", "A"]);
    assert_eq!(remove(&mut list, "id-1").unwrap_err().code(), "not_found");
    assert_eq!(list.len(), 2);
}

#[test]
fn full_lifecycle_new_find_update_remove() {
    let mut list = Vec::new();

    // Register two projects.
    let p1 = register(&mut list, "Sermon Recap", "/s1.scast".into(), 10).unwrap();
    let p2 = register(&mut list, "Youth Podcast", "/s2.scast".into(), 11).unwrap();

    // List returns both.
    assert_eq!(list.len(), 2);

    // Update name of p1.
    let updated = update_meta(&mut list, &p1.id, "Sermon Recap 2025", 12).unwrap();
    assert_eq!(updated.name, "Sermon Recap 2025");

    // p2 is unaffected.
    assert_eq!(find(&list, &p2.id).unwrap().name, "Youth Podcast");

    // Delete p2.
    remove(&mut list, &p2.id).unwrap();
    assert_eq!(list.len(), 1);

    // p1 still findable with its new name.
    let remaining = find(&list, &p1.id).unwrap();
    assert_eq!(remaining.name, "Sermon Recap 2025");
}

// ── recent projects and backups ─────────────────────────────────────────────

fn recent(path: &str, t: u64) -> RecentProject {
    RecentProject {
        name: path.into(),
        path: path.into(),
        last_opened: t,
    }
}

#[test]
fn recent_dedupes_and_orders_most_recent_first() {
    let mut list = Vec::new();
    push_recent_entry(&mut list, recent("/a.scast", 1));
    push_recent_entry(&mut list, recent("/b.scast", 2));
    push_recent_entry(&mut list, recent("/a.scast", 3)); // reopen a
    assert_eq!(list.len(), 2);
    assert_eq!(list[0].path, "/a.scast"); // most recent first
    assert_eq!(list[0].last_opened, 3);
    assert_eq!(list[1].path, "/b.scast");
}

#[test]
fn recent_list_is_capped() {
    let mut list = Vec::new();
    for i in 0..20u64 {
        push_recent_entry(&mut list, recent(&format!("/p{i}.scast"), i));
    }
    assert_eq!(list.len(), MAX_RECENT);
    assert_eq!(list[0].path, "/p19.scast");
    assert_eq!(list[MAX_RECENT - 1].path, "/p8.scast");
}

#[test]
fn backup_names_yield_stems_and_epochs() {
    assert_eq!(backup_stem("100.sqlite").as_deref(), Some("100"));
    assert_eq!(backup_stem("junk.sqlite").as_deref(), Some("junk"));
    assert_eq!(backup_stem("a.b.sqlite").as_deref(), Some("a.b"));
    assert_eq!(backup_stem(".sqlite"), None);
    assert_eq!(backup_stem("notes.txt"), None);
    assert_eq!(backup_stem("sqlite"), None);
    assert_eq!(backup_epoch("1700000000000"), 1_700_000_000_000);
    assert_eq!(backup_epoch("junk"), 0);
    assert_eq!(backup_epoch(""), 0);
}

#[test]
fn prune_keeps_newest_and_drops_unparseable_stems_first() {
    let names = ["100.sqlite", "200.sqlite", "300.sqlite", "junk.sqlite"];
    let epochs: Vec<u64> = names
        .iter()
        .map(|n| backup_epoch(&backup_stem(n).unwrap()))
        .collect();
    let marks = prune_marks(&epochs, 2);
    assert_eq!(marks, vec![true, false, false, true]);
}

#[test]
fn prune_is_a_noop_below_the_limit() {
    assert_eq!(prune_marks(&vec![100], MAX_BACKUPS), vec![false]);
    assert!(prune_marks(&Vec::new(), MAX_BACKUPS).is_empty());
}

#[test]
fn backups_prune_to_keep_newest() {
    let epochs: Vec<u64> = (1..=8).map(|i| i * 1000).collect();
    let marks = prune_marks(&epochs, MAX_BACKUPS);
    assert_eq!(marks.iter().filter(|m| !**m).count(), MAX_BACKUPS);
    assert_eq!(&marks[..3], &[true, true, true]);
}

#[test]
fn equal_epochs_prefer_the_later_listed() {
    assert_eq!(prune_marks(&vec![7, 7, 7], 1), vec![true, true, false]);
}

#[test]
fn parse_u64_follows_std() {
    for s in ["0", "+5", "18446744073709551615", "007", "", "+", "-1", "1 ", "18446744073709551616", "12a"] {
        assert_eq!(parse_u64(s), s.parse::<u64>().ok(), "input {s:?}");
    }
}

// ── the mix plan ────────────────────────────────────────────────────────────

fn t(mute: bool, solo: bool, clip_count: usize) -> TrackMix {
    TrackMix {
        mute,
        solo,
        clip_count,
    }
}

#[test]
fn mute_and_solo_decide_who_is_heard() {
    let plan = mix_plan(&vec![t(false, false, 1), t(true, false, 2), t(false, false, 0)]);
    assert_eq!(plan, vec![Some(false), Some(true), None]);
    let soloed = mix_plan(&vec![t(false, true, 1), t(false, false, 1), t(true, true, 1)]);
    assert_eq!(soloed, vec![Some(false), Some(true), Some(true)]);
}

#[test]
fn export_needs_regions_and_an_audible_track() {
    assert!(check_regions_to_export(0).is_err());
    assert!(check_regions_to_export(3).is_ok());
    assert!(check_export_audible(&vec![Some(true), None]).is_err());
    assert!(check_export_audible(&vec![]).is_err());
    assert!(check_export_audible(&vec![None, Some(false)]).is_ok());
    match check_export_audible(&vec![Some(true)]) {
        Err(AppError::Validation(m)) => {
            assert_eq!(m, "nothing audible to export — every track is muted or empty")
        }
        other => panic!("unexpected {other:?}"),
    }
}

#[test]
fn playback_needs_regions_and_a_track_with_clips() {
    assert!(check_regions_to_play(0).is_err());
    assert!(check_regions_to_play(1).is_ok());
    assert!(check_tracks_to_play(&vec![None, None]).is_err());
    // A silenced track still plays (as silence), so its mute can be lifted live.
    assert!(check_tracks_to_play(&vec![None, Some(true)]).is_ok());
}

#[test]
fn timeline_len_is_the_longest_track() {
    assert_eq!(timeline_len(&[100, 250]), 250);
    assert_eq!(timeline_len(&[]), 0);
    assert_eq!(timeline_len(&[7, 3, 7]), 7);
}

// ── importing files ─────────────────────────────────────────────────────────

#[test]
fn import_reuses_tracks_then_appends_coloured_ones() {
    let targets = import_targets(2, 4);
    assert_eq!(targets[0], ImportTarget::Existing(0));
    assert_eq!(targets[1], ImportTarget::Existing(1));
    assert_eq!(targets[2], ImportTarget::New { color: "#4CB97A" });
    assert_eq!(targets[3], ImportTarget::New { color: "#D47A3A" });
    assert_eq!(import_targets(0, 7)[6], ImportTarget::New { color: "#D4A73A" });
}

#[test]
fn import_checks_and_names() {
    assert_eq!(check_import_request(0).unwrap_err().code(), "validation");
    assert!(check_import_request(1).is_ok());
    assert!(check_import_rate("a.wav", 48_000, 48_000).is_ok());
    match check_import_rate("a.wav", 44_100, 48_000) {
        Err(AppError::Validation(m)) => assert_eq!(
            m,
            "a.wav is 44100 Hz but the project is 48000 Hz — sample-rate conversion lands in a later phase"
        ),
        other => panic!("unexpected {other:?}"),
    }
    assert_eq!(import_track_name(Some("Interview".into()), 0), "Interview");
    assert_eq!(import_track_name(None, 2), "Track 3");
}

// ── recording ───────────────────────────────────────────────────────────────

#[test]
fn capture_channels_feed_tracks_then_spill_into_their_own_files() {
    let ids = vec!["t1".to_string(), "t2".to_string()];
    assert_eq!(capture_track_ids(&ids, None).unwrap(), vec!["t1", "t2"]);
    assert_eq!(capture_track_ids(&ids, Some(4)).unwrap(), vec!["t1", "t2", "ch2", "ch3"]);
    assert_eq!(capture_track_ids(&ids, Some(1)).unwrap(), vec!["t1"]);
    assert!(capture_track_ids(&ids, Some(0)).unwrap().is_empty());
    match capture_track_ids(&Vec::new(), Some(2)) {
        Err(AppError::Validation(m)) => assert_eq!(m, "add at least one track before recording"),
        other => panic!("unexpected {other:?}"),
    }
}

#[test]
fn recording_guards() {
    assert!(check_not_recording(false).is_ok());
    assert_eq!(check_not_recording(true).unwrap_err().code(), "validation");
    assert!(check_same_project("p", "p").is_ok());
    assert!(check_same_project("p", "q").is_err());
}

#[test]
fn only_tracks_that_captured_audio_get_a_clip() {
    assert_eq!(tracks_with_audio(3, &vec![10, 0]), vec![true, false, false]);
    assert!(tracks_with_audio(0, &vec![5]).is_empty());
}
