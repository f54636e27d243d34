use vnidrop_share::PluginTempFileManager;

/// A real file on disk whose path the manager can own.
fn materialize_real_file(dir: &tempfile::TempDir) -> String {
    let file = tempfile::Builder::new()
        .tempfile_in(dir.path())
        .expect("could not create a file");
    let (_, path) = file.keep().expect("could not persist the file");
    path.to_string_lossy().into_owned()
}

#[test]
fn cleanup_reports_exactly_the_missing_entries() {
    let dir = tempfile::tempdir().expect("could not create a directory");
    let mut mgr = PluginTempFileManager::new();

    // Three real files and two entries that are missing on disk.
    for _ in 0..3 {
        mgr.add_file(materialize_real_file(&dir)).unwrap();
    }
    let missing_a = dir.path().join("missing-a").to_string_lossy().into_owned();
    let missing_b = dir.path().join("missing-b").to_string_lossy().into_owned();
    mgr.add_file(missing_a.clone()).unwrap();
    mgr.add_file(missing_b.clone()).unwrap();

    let failures = mgr.cleanup_all_managed_files();
    assert_eq!(failures.len(), 2);
    assert!(failures.contains(&missing_a));
    assert!(failures.contains(&missing_b));
    assert!(mgr.managed_files.is_empty());
}

#[test]
fn add_then_cleanup_deletes_the_file_and_empties_the_registry() {
    let dir = tempfile::tempdir().expect("could not create a directory");
    let mut mgr = PluginTempFileManager::new();

    let path = materialize_real_file(&dir);
    mgr.add_file(path.clone()).unwrap();

    let failures = mgr.cleanup_all_managed_files();
    assert!(failures.is_empty());
    assert!(mgr.managed_files.is_empty());

    // Registering the same path again now fails to delete: the first
    // cleanup really removed the file from disk.
    mgr.add_file(path).unwrap();
    let failures = mgr.cleanup_all_managed_files();
    assert_eq!(failures.len(), 1);
    assert!(mgr.managed_files.is_empty());
}

#[test]
fn second_cleanup_is_a_no_op_with_no_failures() {
    let dir = tempfile::tempdir().expect("could not create a directory");
    let mut mgr = PluginTempFileManager::new();
    mgr.add_file(materialize_real_file(&dir)).unwrap();
    mgr.add_file(dir.path().join("gone").to_string_lossy().into_owned()).unwrap();

    let first = mgr.cleanup_all_managed_files();
    assert_eq!(first.len(), 1);
    let second = mgr.cleanup_all_managed_files();
    assert!(second.is_empty());
    assert!(mgr.managed_files.is_empty());
}

#[test]
fn remove_and_delete_file_removes_one_matching_entry() {
    let dir = tempfile::tempdir().expect("could not create a directory");
    let mut mgr = PluginTempFileManager::new();

    let keep = materialize_real_file(&dir);
    let gone = materialize_real_file(&dir);
    mgr.add_file(keep.clone()).unwrap();
    mgr.add_file(gone.clone()).unwrap();

    assert!(mgr.remove_and_delete_file(&gone).is_ok());
    assert_eq!(mgr.managed_files, vec![keep]);

    // Deleting it again fails: it is no longer in the managed list, and
    // the error names the path.
    let err = mgr.remove_and_delete_file(&gone).unwrap_err();
    assert_eq!(err, format!("file not found in managed list: {gone}"));
    assert_eq!(mgr.managed_files.len(), 1);
}

#[test]
fn remove_and_delete_file_reports_a_missing_file() {
    let dir = tempfile::tempdir().expect("could not create a directory");
    let mut mgr = PluginTempFileManager::new();

    // The entry exists in the registry but not on disk: the entry is taken
    // out, and the failed deletion is reported with the path named.
    let missing = dir.path().join("missing").to_string_lossy().into_owned();
    mgr.add_file(missing.clone()).unwrap();
    let err = mgr.remove_and_delete_file(&missing).unwrap_err();
    assert_eq!(err, format!("failed to delete file: {missing}"));
    assert!(mgr.managed_files.is_empty());
}
