use voxta::error::AppError;
use voxta::models::{
    check_digest, choose_installed_path, find_model, hex_lower, installed_path_or_error, model_catalog, verify_bytes,
    ChecksumAlgorithm, ModelManager,
};
use std::path::PathBuf;
use sha1::{Digest, Sha1};
use voxta::models::{download_url, DownloadTracker};

#[test]
fn lists_install_state_from_model_directory() {
    let manager = ModelManager::from_dir(PathBuf::from("/nonexistent/voxta/models"));
    let models = manager.list(vec![None; model_catalog().len()]);
    assert!(models.iter().any(|model| model.id == "tiny"));
    assert!(models.iter().all(|model| !model.installed));
}

// Further cases.

#[test]
fn verifies_checksum_of_bytes() {
    let digest = Sha1::digest(b"voxta");
    let computed: String = digest.iter().map(|b| format!("{b:02x}")).collect();
    assert!(verify_bytes("model.bin", b"voxta", ChecksumAlgorithm::Sha1, &computed).is_ok());
    assert!(verify_bytes("model.bin", b"voxta", ChecksumAlgorithm::Sha1, &computed.to_uppercase()).is_ok());
    match verify_bytes("model.bin", b"voxta", ChecksumAlgorithm::Sha1, "bad") {
        Err(AppError::Model(m)) => assert_eq!(m, format!("checksum mismatch for model.bin: expected bad, got {computed}")),
        other => panic!("unexpected {other:?}"),
    }
}

#[test]
fn sha256_checksum() {
    // SHA-256 of the empty input.
    let empty = "e3b0c44298fc1c149afbf4c8996fb92427ae41e4649b934ca495991b7852b855";
    assert!(verify_bytes("x", b"", ChecksumAlgorithm::Sha256, empty).is_ok());
    assert!(verify_bytes("x", b"", ChecksumAlgorithm::Sha1, empty).is_err());
}

#[test]
fn hex_and_digest_check() {
    assert_eq!(hex_lower(&[0x00, 0xab, 0x7f]).into_iter().collect::<String>(), "00ab7f");
    assert!(check_digest("p", &[0xde, 0xad], "DEAD").is_ok());
    assert!(check_digest("p", &[0xde, 0xad], "dead00").is_err());
}

#[test]
fn catalog_and_lookup() {
    let catalog = model_catalog();
    assert_eq!(catalog.len(), 6);
    let base = find_model("base").unwrap();
    assert_eq!(base.file_name, "ggml-base.bin");
    assert_eq!(base.size_bytes, 142 * 1024 * 1024);
    match find_model("huge") {
        Err(AppError::Model(m)) => assert_eq!(m, "unknown model: huge"),
        other => panic!("unexpected {other:?}"),
    }
}

#[test]
fn installed_paths() {
    let new = PathBuf::from("/a/ggml-tiny.bin");
    let legacy = PathBuf::from("/b/ggml-tiny.bin");
    assert_eq!(choose_installed_path(new.clone(), true, Some((legacy.clone(), true))), Some(new.clone()));
    assert_eq!(choose_installed_path(new.clone(), false, Some((legacy.clone(), true))), Some(legacy.clone()));
    assert_eq!(choose_installed_path(new.clone(), false, Some((legacy, false))), None);
    assert_eq!(choose_installed_path(new, false, None), None);
    match installed_path_or_error("tiny", None) {
        Err(AppError::Model(m)) => assert_eq!(m, "model 'tiny' is not installed"),
        other => panic!("unexpected {other:?}"),
    }
}

#[test]
fn list_reports_installed_paths() {
    let manager = ModelManager::from_dirs(PathBuf::from("/new"), PathBuf::from("/legacy"));
    let mut paths = vec![None; 6];
    paths[2] = Some(PathBuf::from("/new/ggml-base.bin"));
    let models = manager.list(paths);
    assert_eq!(models[2].id, "base");
    assert!(models[2].installed);
    assert_eq!(models[2].path, Some(PathBuf::from("/new/ggml-base.bin")));
    assert!(!models[0].installed);
    assert_eq!(manager.models_dir(), &PathBuf::from("/new"));
    assert_eq!(manager.legacy_models_dir(), Some(&PathBuf::from("/legacy")));
}

#[test]
fn download_url_and_progress() {
    let tiny = find_model("tiny").unwrap();
    assert_eq!(
        download_url(&tiny),
        "https://huggingface.co/ggerganov/whisper.cpp/resolve/main/ggml-tiny.bin"
    );
    let mut tracker = DownloadTracker::new("tiny", Some(100));
    let p = tracker.record_chunk(40);
    assert_eq!((p.downloaded_bytes, p.total_bytes, p.done), (40, Some(100), false));
    let p = tracker.record_chunk(60);
    assert_eq!(p.downloaded_bytes, 100);
    assert_eq!(p.model_id, "tiny");
    let done = tracker.finished();
    assert!(done.done);
    assert_eq!(done.downloaded_bytes, 100);
}
