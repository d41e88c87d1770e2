use meetily_diarization::{download_file_name, whisper_model_catalog, DEFAULT_WHISPER_MODEL};

/// A catalog entry's `filename` must match the name a download saves the
/// model under (`ggml-<name>.bin`), or a freshly downloaded model would be
/// looked up under another name and reported as permanently missing.
#[test]
fn catalog_filenames_match_download_naming_convention() {
    for m in whisper_model_catalog() {
        let expected = format!("ggml-{}.bin", m.name);
        assert_eq!(
            m.filename, expected,
            "catalog entry '{}' has filename '{}', but download_model() would save it as '{}'",
            m.name, m.filename, expected
        );
    }
}

#[test]
fn catalog_has_no_duplicate_names() {
    let mut names: Vec<&str> = whisper_model_catalog().iter().map(|m| m.name).collect();
    let original_len = names.len();
    names.sort_unstable();
    names.dedup();
    assert_eq!(names.len(), original_len, "duplicate model name in WHISPER_MODEL_CATALOG");
}

#[test]
fn catalog_lists_the_default_model() {
    assert!(whisper_model_catalog().iter().any(|m| m.name == DEFAULT_WHISPER_MODEL));
}

#[test]
fn catalog_keeps_metadata_of_each_entry() {
    let catalog = whisper_model_catalog();
    assert_eq!(catalog.len(), 25);
    let turbo = catalog.iter().find(|m| m.name == "large-v3-turbo").unwrap();
    assert_eq!(turbo.filename, "ggml-large-v3-turbo.bin");
    assert_eq!(turbo.size_mb, 1549);
    assert_eq!(turbo.accuracy, "High");
    assert_eq!(turbo.speed, "Medium");
    assert_eq!(turbo.description, "Best accuracy with improved speed");
    assert_eq!(catalog[0].name, "tiny");
    assert_eq!(catalog[24].name, "distil-large-v3");
}

#[test]
fn download_file_name_follows_convention() {
    assert_eq!(download_file_name("tiny.en-q5_1"), "ggml-tiny.en-q5_1.bin");
    assert_eq!(download_file_name(""), "ggml-.bin");
}
