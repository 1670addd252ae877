use vrm1_face_tracking::config::AppConfig;
use vrm1_face_tracking::extensions::{VrmExpressions, VrmMeta};

#[test]
fn test_config_default() {
    let config = AppConfig::default();
    assert_eq!(config.default_vrm_model, "model.vrm");
    assert!(!config.user_vrm_dir.is_empty());
}

#[test]
fn test_vrm_meta_default() {
    let meta = VrmMeta::default();
    assert_eq!(meta.name, "Unnamed VRM");
    assert!(meta.version.is_empty());
    assert!(meta.authors.is_empty());
    assert!(meta.copyright_information.is_empty());
    assert!(meta.contact_information.is_empty());
    assert!(meta.references.is_empty());
    assert!(meta.third_party_licenses.is_empty());
    assert_eq!(meta.thumbnail_image, None);
    assert!(meta.license_url.is_empty());
    assert!(meta.avatar_permission.is_empty());
    assert!(meta.commercial_usage.is_empty());
    assert!(meta.credit_notation.is_empty());
    assert!(meta.modification.is_empty());
    assert!(!meta.allow_redistribution);
}

#[test]
fn test_vrm_expressions_default_is_empty() {
    let expressions = VrmExpressions::default();
    assert!(expressions.preset.is_empty());
    assert!(expressions.custom.is_empty());
}
