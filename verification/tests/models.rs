use dikt::managers::catalog::{offered_catalog, ModelInfo};
use dikt::managers::model::{ModelManager, ModelState};
use std::sync::atomic::{AtomicBool, Ordering};
use std::sync::Arc;

fn one_model(id: &str) -> ModelInfo {
    let mut model = offered_catalog().remove(0);
    model.id = id.to_string();
    model
}

#[test]
fn test_is_model_downloading() {
    let model_id = "test-model";
    let cancel_flag = Arc::new(AtomicBool::new(false));
    assert!(!cancel_flag.load(Ordering::Acquire));
    cancel_flag.store(true, Ordering::Release);
    assert!(cancel_flag.load(Ordering::Acquire));

    let mut manager = ModelManager::with_models(vec![one_model(model_id)], String::new());
    assert!(!manager.is_model_downloading(model_id));
    assert!(manager.begin_download(model_id, 0).is_ok());
    assert!(manager.is_model_downloading(model_id));
    assert!(!manager.is_cancelled(model_id));
    manager.cancel_download(model_id);
    assert!(manager.is_cancelled(model_id));
}

#[test]
fn test_concurrent_download_prevention_logic() {
    let is_downloading = Arc::new(AtomicBool::new(false));
    assert!(!is_downloading.load(Ordering::Acquire));
    is_downloading.store(true, Ordering::Release);
    let can_start_second = !is_downloading.load(Ordering::Acquire);
    assert!(
        !can_start_second,
        "Second download should be prevented when first is in progress"
    );
    is_downloading.store(false, Ordering::Release);
    let can_start_after = !is_downloading.load(Ordering::Acquire);
    assert!(
        can_start_after,
        "Download should be allowed after previous one completes"
    );

    let mut manager = ModelManager::with_models(vec![one_model("m")], String::new());
    assert!(manager.begin_download("m", 0).is_ok());
    assert!(
        manager.begin_download("m", 0).is_err(),
        "Second download should be prevented when first is in progress"
    );
    manager.finish_download("m");
    assert!(
        manager.begin_download("m", 0).is_ok(),
        "Download should be allowed after previous one completes"
    );
}

#[test]
fn states_tell_what_they_are() {
    let downloading =
        ModelState::Downloading { bytes_downloaded: 1, bytes_total: 2, cancel_flag: true };
    assert!(downloading.is_downloading());
    assert_eq!(downloading.cancel_flag(), Some(true));
    assert!(ModelState::Available.can_download());
    assert!(ModelState::Ready.is_ready());
    assert!(ModelState::Extracting { progress_message: String::new() }.is_extracting());
    assert!(ModelState::Error { message: "x".to_string(), retryable: true }.can_download());
    assert!(!ModelState::Ready.can_download());
}
