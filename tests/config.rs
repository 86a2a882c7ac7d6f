use zipdrop::config::{
    assemble_r2_config, default_demo_mode, get_config_dir, get_config_path, get_config_status,
    get_demo_output_dir, get_settings_path, AppSettings, KeychainSecrets, R2Config, StoredConfig,
};
use zipdrop::processor::ProcessResult;
use zipdrop::uploader::UploadResult;
use zipdrop::workflow::{demo_drop_result, remote_drop_result, require_config};

fn config() -> R2Config {
    R2Config {
        access_key: "ak".to_string(),
        secret_key: "sk".to_string(),
        bucket_name: "drops".to_string(),
        account_id: "acct".to_string(),
        public_url_base: "https://cdn".to_string(),
    }
}

fn processed() -> ProcessResult {
    ProcessResult { output_path: "/dl/ZipDrop/a_1234abcd.webp".to_string(), original_size: 100, processed_size: 40, file_type: "webp".to_string() }
}

#[test]
fn settings_default_to_demo_mode() {
    let s = AppSettings::default();
    assert!(s.demo_mode);
    assert!(s.demo_output_dir.is_none());
    assert!(default_demo_mode());
}

#[test]
fn config_files_live_in_the_app_directory() {
    let dir = get_config_dir("/home/u/.config");
    assert_eq!(dir, "/home/u/.config/zipdrop");
    assert_eq!(get_config_path(&dir), "/home/u/.config/zipdrop/config.json");
    assert_eq!(get_settings_path("/c/"), "/c/settings.json");
    assert_eq!(get_demo_output_dir("/home/u/Downloads"), "/home/u/Downloads/ZipDrop");
}

#[test]
fn config_splits_and_reassembles() {
    let c = config();
    let stored = c.stored_part();
    let secrets = c.secrets_part();
    assert_eq!(stored.bucket_name, "drops");
    assert_eq!(secrets.access_key, "ak");
    let back = assemble_r2_config(stored, secrets).unwrap();
    assert_eq!(back.secret_key, "sk");
    assert_eq!(back.account_id, "acct");
    assert_eq!(back.public_url_base, "https://cdn");
}

#[test]
fn empty_secret_means_no_config() {
    let stored = StoredConfig { bucket_name: "b".to_string(), account_id: "a".to_string(), public_url_base: "u".to_string() };
    let secrets = KeychainSecrets { access_key: "ak".to_string(), secret_key: String::new() };
    assert!(assemble_r2_config(stored, secrets).is_none());
}

#[test]
fn status_reports_configuration_and_mode() {
    let s = get_config_status(&Some(config()), Some(&AppSettings { demo_mode: false, demo_output_dir: None }));
    assert!(s.is_configured);
    assert!(!s.demo_mode);
    assert_eq!(s.bucket_name, Some("drops".to_string()));
    let t = get_config_status(&None, None);
    assert!(!t.is_configured);
    assert!(t.demo_mode);
    assert_eq!(t.bucket_name, None);
}

#[test]
fn demo_result_points_at_the_local_file() {
    let d = demo_drop_result(processed());
    assert_eq!(d.url, "file:///dl/ZipDrop/a_1234abcd.webp");
    assert_eq!(d.local_path, Some("/dl/ZipDrop/a_1234abcd.webp".to_string()));
    assert_eq!(d.r2_key, None);
    assert_eq!((d.original_size, d.processed_size), (100, 40));
    assert!(d.is_demo);
}

#[test]
fn remote_result_points_at_the_object() {
    let u = UploadResult { url: "https://cdn/u/k.webp".to_string(), key: "u/k.webp".to_string(), size: 40 };
    let d = remote_drop_result(processed(), u);
    assert_eq!(d.url, "https://cdn/u/k.webp");
    assert_eq!(d.r2_key, Some("u/k.webp".to_string()));
    assert_eq!(d.local_path, None);
    assert_eq!(d.file_type, "webp");
    assert!(!d.is_demo);
}

#[test]
fn missing_config_is_an_error() {
    assert_eq!(require_config(None, "R2 not configured").err(), Some("R2 not configured".to_string()));
    assert_eq!(require_config(Some(config()), "x").unwrap().bucket_name, "drops");
}
