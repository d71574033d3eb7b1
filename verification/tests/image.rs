use arsa_backend::error::ArsaError;
use arsa_backend::image::{
    ensure_pull_allowed, image_version, listed_container_name, pull_log_entry,
    pull_log_entry_with_id, ImageInspectOutcome, ImageProgress,
};
use arsa_backend::responses::ArsStatus;

fn progress(id: Option<&str>) -> ImageProgress {
    ImageProgress {
        id: id.map(|s| s.to_string()),
        error_code: None,
        error_message: None,
        status: Some("Downloading".to_string()),
        progress_current: Some(10),
        progress_total: Some(100),
    }
}

#[test]
fn pull_log_of_a_report() {
    let r = pull_log_entry_with_id(7, Ok(progress(Some("layer1"))), 9);
    assert_eq!(r.id, "layer1");
    assert_eq!(r.pull_id, 7);
    assert_eq!(r.status, "Downloading");
    assert_eq!(r.progress_detail_current, 10);
    assert_eq!(r.progress_detail_total, 100);
    assert_eq!(r.error_detail_code, 0);
    assert_eq!(r.error_detail_message, "");
}

#[test]
fn pull_log_without_id_or_with_failure() {
    let r = pull_log_entry_with_id(7, Ok(progress(Some(""))), 9);
    assert_eq!(r.id, "00000000-0000-0000-0000-000000000009");
    let r = pull_log_entry_with_id(7, Ok(progress(None)), 9);
    assert_eq!(r.id, "00000000-0000-0000-0000-000000000009");
    let r = pull_log_entry_with_id(7, Err("pull failed".to_string()), 10);
    assert_eq!(r.id, "00000000-0000-0000-0000-00000000000a");
    assert_eq!(r.error_detail_message, "pull failed");
    assert_eq!(r.status, "");
    let r = pull_log_entry(7, Ok(progress(None)));
    assert_eq!(r.id.len(), 36);
    assert_eq!(&r.id[14..15], "4");
    assert!(matches!(&r.id[19..20], "8" | "9" | "a" | "b"));
    assert_eq!(r.pull_id, 7);
    let r = pull_log_entry(7, Ok(progress(Some("abc"))));
    assert_eq!(r.id, "abc");
}

#[test]
fn pulls_wait_for_recreation() {
    assert!(matches!(ensure_pull_allowed(ArsStatus::Recreating), Err(ArsaError::BadRequest)));
    assert!(ensure_pull_allowed(ArsStatus::Available).is_ok());
    assert!(ensure_pull_allowed(ArsStatus::Unknown).is_ok());
}

#[test]
fn image_version_label() {
    let labels = vec![
        ("maintainer".to_string(), "x".to_string()),
        ("de.grad.arsa.version".to_string(), "1.6.0.121".to_string()),
    ];
    assert_eq!(image_version(ImageInspectOutcome::Found(labels)).unwrap(), "1.6.0.121");
    assert!(matches!(image_version(ImageInspectOutcome::Found(vec![])), Err(ArsaError::NotFound)));
    assert!(matches!(image_version(ImageInspectOutcome::Missing), Err(ArsaError::NotFound)));
    assert!(matches!(
        image_version(ImageInspectOutcome::Failed("e".to_string())),
        Err(ArsaError::BollardError(m)) if m == "e"
    ));
}

#[test]
fn listed_container_names() {
    assert_eq!(listed_container_name(&Some(vec!["/abc".to_string(), "/d".to_string()])), "abc");
    assert_eq!(listed_container_name(&Some(vec![])), "");
    assert_eq!(listed_container_name(&None), "");
}
