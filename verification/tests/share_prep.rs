use vnidrop_share::share::{
    combined_share_text, create_temp_file_for_data, prepare_share, sanitize_file_name,
};
use vnidrop_share::{Error, PluginTempFileManager, ShareOptions, SharedFile};

fn temp_dir_string(dir: &tempfile::TempDir) -> String {
    dir.path().to_string_lossy().into_owned()
}

#[test]
fn combined_text_joins_text_and_url_with_a_newline() {
    let text = Some(String::from("look at this"));
    let url = Some(String::from("https://example.com"));
    assert_eq!(
        combined_share_text(&text, &url),
        "look at this\nhttps://example.com"
    );
    assert_eq!(combined_share_text(&text, &None), "look at this");
    assert_eq!(combined_share_text(&None, &url), "https://example.com");
    assert_eq!(combined_share_text(&None, &None), "");
}

#[test]
fn sanitize_keeps_only_the_file_name_part() {
    assert_eq!(
        sanitize_file_name(&String::from("report.pdf")),
        Some(String::from("report.pdf"))
    );
    assert_eq!(
        sanitize_file_name(&String::from("../../etc/passwd")),
        Some(String::from("passwd"))
    );
    assert_eq!(
        sanitize_file_name(&String::from("C:\\Users\\someone\\notes.txt")),
        Some(String::from("notes.txt"))
    );
    assert_eq!(sanitize_file_name(&String::from("uploads/")), None);
    assert_eq!(sanitize_file_name(&String::from("")), None);
    assert_eq!(sanitize_file_name(&String::from("a/.")), None);
    assert_eq!(sanitize_file_name(&String::from("..")), None);
}

#[test]
fn invalid_base64_is_rejected_as_invalid_args() {
    let dir = tempfile::tempdir().expect("could not create a directory");
    let file = SharedFile {
        data: String::from("!!! not base64 !!!"),
        name: String::from("note.txt"),
        mime_type: String::from("text/plain"),
    };
    let r = create_temp_file_for_data(&file, &temp_dir_string(&dir));
    assert!(matches!(r, Err(Error::InvalidArgs(_))));
}

#[test]
fn unusable_file_name_is_rejected_as_invalid_args() {
    let dir = tempfile::tempdir().expect("could not create a directory");
    let file = SharedFile {
        data: String::from("aGVsbG8="),
        name: String::from("uploads/"),
        mime_type: String::from("text/plain"),
    };
    let r = create_temp_file_for_data(&file, &temp_dir_string(&dir));
    assert!(matches!(r, Err(Error::InvalidArgs(_))));
}

#[test]
fn a_missing_directory_is_a_temp_file_error() {
    let file = SharedFile {
        data: String::from("aGVsbG8="),
        name: String::from("note.txt"),
        mime_type: String::from("text/plain"),
    };
    let nowhere = String::from("/nonexistent-vnidrop-share-dir/deep");
    let r = create_temp_file_for_data(&file, &nowhere);
    assert!(matches!(r, Err(Error::TempFile(_))));
}

#[test]
fn valid_file_is_materialized_under_its_sanitized_name() {
    let dir = tempfile::tempdir().expect("could not create a directory");
    let file = SharedFile {
        data: String::from("aGVsbG8="),
        name: String::from("nested/dir/hello.txt"),
        mime_type: String::from("text/plain"),
    };
    let path = create_temp_file_for_data(&file, &temp_dir_string(&dir)).unwrap();
    assert!(path.starts_with(dir.path().to_string_lossy().as_ref()));
    assert!(path.ends_with("-hello.txt"));
    assert!(!path.contains("nested"));

    // The artifact really exists: deleting it through the manager succeeds.
    let mut mgr = PluginTempFileManager::new();
    mgr.add_file(path).unwrap();
    assert!(mgr.cleanup_all_managed_files().is_empty());
}

#[test]
fn empty_payload_is_rejected() {
    let dir = tempfile::tempdir().expect("could not create a directory");
    let mut mgr = PluginTempFileManager::new();
    let options = ShareOptions { text: None, title: None, url: None, files: None };
    let r = prepare_share(&mut mgr, &options, &temp_dir_string(&dir));
    assert!(matches!(r, Err(Error::InvalidArgs(_))));
    assert!(mgr.managed_files.is_empty());

    let options = ShareOptions { text: None, title: None, url: None, files: Some(vec![]) };
    let r = prepare_share(&mut mgr, &options, &temp_dir_string(&dir));
    assert!(matches!(r, Err(Error::InvalidArgs(_))));
    assert!(mgr.managed_files.is_empty());
}

#[test]
fn text_only_payload_needs_no_artifacts() {
    let dir = tempfile::tempdir().expect("could not create a directory");
    let mut mgr = PluginTempFileManager::new();
    let options = ShareOptions {
        text: Some(String::from("hello")),
        title: None,
        url: Some(String::from("https://example.com")),
        files: None,
    };
    let plan = prepare_share(&mut mgr, &options, &temp_dir_string(&dir)).unwrap();
    assert_eq!(plan.text, "hello\nhttps://example.com");
    assert!(plan.files.is_empty());
    assert!(mgr.managed_files.is_empty());
}

#[test]
fn prepared_files_are_registered_for_cleanup() {
    let dir = tempfile::tempdir().expect("could not create a directory");
    let mut mgr = PluginTempFileManager::new();
    let options = ShareOptions {
        text: None,
        title: Some(String::from("two attachments")),
        url: None,
        files: Some(vec![
            SharedFile {
                data: String::from("aGVsbG8="),
                name: String::from("a.txt"),
                mime_type: String::from("text/plain"),
            },
            SharedFile {
                data: String::from("d29ybGQ="),
                name: String::from("b.txt"),
                mime_type: String::from("text/plain"),
            },
        ]),
    };
    let plan = prepare_share(&mut mgr, &options, &temp_dir_string(&dir)).unwrap();
    assert_eq!(plan.text, "");
    assert_eq!(plan.files.len(), 2);
    assert_eq!(mgr.managed_files, plan.files);

    // Every materialized artifact exists and is deleted exactly once.
    assert!(mgr.cleanup_all_managed_files().is_empty());
    assert!(mgr.managed_files.is_empty());
}

#[test]
fn a_bad_file_aborts_the_share_but_keeps_earlier_artifacts_registered() {
    let dir = tempfile::tempdir().expect("could not create a directory");
    let mut mgr = PluginTempFileManager::new();
    let options = ShareOptions {
        text: None,
        title: None,
        url: None,
        files: Some(vec![
            SharedFile {
                data: String::from("aGVsbG8="),
                name: String::from("fine.txt"),
                mime_type: String::from("text/plain"),
            },
            SharedFile {
                data: String::from("*** bad ***"),
                name: String::from("broken.txt"),
                mime_type: String::from("text/plain"),
            },
        ]),
    };
    let r = prepare_share(&mut mgr, &options, &temp_dir_string(&dir));
    assert!(matches!(r, Err(Error::InvalidArgs(_))));
    // The artifact created before the failure stays registered for later
    // cleanup rather than being deleted eagerly.
    assert_eq!(mgr.managed_files.len(), 1);
    assert!(mgr.cleanup_all_managed_files().is_empty());
}
