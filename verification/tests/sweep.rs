use discord_ls_resolver::{plan_sweep, DirEntry, Effect, EntryKind};

fn entry(name: &str, kind: EntryKind) -> DirEntry {
    DirEntry { name: name.to_string(), kind }
}

#[test]
fn sweep_removes_older_version_and_keeps_new_one() {
    let entries = vec![entry("v1", EntryKind::Directory), entry("v2", EntryKind::Directory)];
    assert_eq!(
        plan_sweep(&entries, &"v2".to_string()),
        vec![Effect::RemoveTree("./v1".to_string())]
    );
}

#[test]
fn sweep_removes_files_singly_and_directories_whole() {
    let entries = vec![
        entry("download.zip", EntryKind::File),
        entry("v0.9", EntryKind::Directory),
        entry("v1.0", EntryKind::Directory),
        entry("notes.txt", EntryKind::File),
    ];
    assert_eq!(
        plan_sweep(&entries, &"v1.0".to_string()),
        vec![
            Effect::RemoveFile("./download.zip".to_string()),
            Effect::RemoveTree("./v0.9".to_string()),
            Effect::RemoveFile("./notes.txt".to_string()),
        ]
    );
}

#[test]
fn sweep_skips_entries_of_unknown_type() {
    let entries = vec![entry("mystery", EntryKind::Unknown), entry("v1", EntryKind::Directory)];
    assert_eq!(plan_sweep(&entries, &"v2".to_string()), vec![Effect::RemoveTree("./v1".to_string())]);
}

#[test]
fn sweep_keeps_a_file_named_like_the_version() {
    let entries = vec![entry("v2", EntryKind::File)];
    assert_eq!(plan_sweep(&entries, &"v2".to_string()), vec![]);
}

#[test]
fn sweep_of_empty_listing_is_empty() {
    assert_eq!(plan_sweep(&vec![], &"v2".to_string()), vec![]);
}

#[test]
fn sweep_compares_names_exactly() {
    let entries = vec![entry("V2", EntryKind::Directory), entry("v2 ", EntryKind::Directory)];
    assert_eq!(
        plan_sweep(&entries, &"v2".to_string()),
        vec![Effect::RemoveTree("./V2".to_string()), Effect::RemoveTree("./v2 ".to_string())]
    );
}
