//! The storage configuration and the application settings, and the pure
//! parts of loading and saving them.
use vstd::prelude::*;
use vstd::string::*;
use crate::text::{join_path, join_spec};

verus! {

/// The storage configuration: credentials, bucket, account and public base URL.
#[derive(Debug, Clone)]
pub struct R2Config {
    pub access_key: String,
    pub secret_key: String,
    pub bucket_name: String,
    pub account_id: String,
    pub public_url_base: String,
}

/// The non-secret part of the configuration, kept in a file.
#[derive(Debug, Clone)]
pub struct StoredConfig {
    pub bucket_name: String,
    pub account_id: String,
    pub public_url_base: String,
}

/// The secret part of the configuration, kept as one entry in the secret store.
#[derive(Debug, Clone)]
pub struct KeychainSecrets {
    pub access_key: String,
    pub secret_key: String,
}

impl R2Config {
    /// The part of the configuration that goes to the settings file.
    pub fn stored_part(&self) -> (r: StoredConfig)
        ensures
            r.bucket_name@ == self.bucket_name@,
            r.account_id@ == self.account_id@,
            r.public_url_base@ == self.public_url_base@,
    {
        StoredConfig {
            bucket_name: self.bucket_name.clone(),
            account_id: self.account_id.clone(),
            public_url_base: self.public_url_base.clone(),
        }
    }

    /// The part of the configuration that goes to the secret store.
    pub fn secrets_part(&self) -> (r: KeychainSecrets)
        ensures
            r.access_key@ == self.access_key@,
            r.secret_key@ == self.secret_key@,
    {
        KeychainSecrets { access_key: self.access_key.clone(), secret_key: self.secret_key.clone() }
    }
}

/// Puts a configuration back together from its two parts; there is none
/// where either key is empty.
pub fn assemble_r2_config(stored: StoredConfig, secrets: KeychainSecrets) -> (r: Option<R2Config>)
    ensures
        (secrets.access_key@.len() == 0 || secrets.secret_key@.len() == 0) <==> r is None,
        r matches Some(c) ==> (c.access_key@ == secrets.access_key@ && c.secret_key@ == secrets.secret_key@
            && c.bucket_name@ == stored.bucket_name@ && c.account_id@ == stored.account_id@
            && c.public_url_base@ == stored.public_url_base@),
{
    if secrets.access_key.as_str().unicode_len() == 0 || secrets.secret_key.as_str().unicode_len() == 0 {
        return None;
    }
    Some(R2Config {
        access_key: secrets.access_key,
        secret_key: secrets.secret_key,
        bucket_name: stored.bucket_name,
        account_id: stored.account_id,
        public_url_base: stored.public_url_base,
    })
}

/// The application's settings: whether artifacts stay on disk instead of
/// being uploaded, and where they go then.
#[derive(Debug, Clone)]
pub struct AppSettings {
    pub demo_mode: bool,
    pub demo_output_dir: Option<String>,
}

/// Demo mode is on unless the settings say otherwise.
pub fn default_demo_mode() -> (r: bool)
    ensures
        r,
{
    true
}

impl Default for AppSettings {
    fn default() -> (r: AppSettings)
        ensures
            r.demo_mode,
            r.demo_output_dir is None,
    {
        AppSettings { demo_mode: default_demo_mode(), demo_output_dir: None }
    }
}

/// The application's directory inside the user's configuration directory.
pub fn get_config_dir(base_config_dir: &str) -> (r: String)
    ensures
        r@ == join_spec(base_config_dir@, "zipdrop"@),
{
    join_path(base_config_dir, "zipdrop")
}

/// The file that holds the non-secret configuration.
pub fn get_config_path(config_dir: &str) -> (r: String)
    ensures
        r@ == join_spec(config_dir@, "config.json"@),
{
    join_path(config_dir, "config.json")
}

/// The file that holds the settings.
pub fn get_settings_path(config_dir: &str) -> (r: String)
    ensures
        r@ == join_spec(config_dir@, "settings.json"@),
{
    join_path(config_dir, "settings.json")
}

/// The directory where demo mode keeps artifacts, inside the downloads
/// (or home) directory.
pub fn get_demo_output_dir(downloads_dir: &str) -> (r: String)
    ensures
        r@ == join_spec(downloads_dir@, "ZipDrop"@),
{
    join_path(downloads_dir, "ZipDrop")
}

/// What the interface shows of the configuration.
#[derive(Debug, Clone)]
pub struct ConfigStatus {
    pub is_configured: bool,
    pub demo_mode: bool,
    pub bucket_name: Option<String>,
}

/// The configuration status, from the current configuration and settings
/// (`None` where they could not be read): demo mode counts as on where the
/// settings are unavailable.
pub fn get_config_status(config: &Option<R2Config>, settings: Option<&AppSettings>) -> (r: ConfigStatus)
    ensures
        r.is_configured == config is Some,
        r.demo_mode == (match settings {
            Some(s) => s.demo_mode,
            None => true,
        }),
        r.bucket_name is Some == config is Some,
        r.bucket_name matches Some(b) ==> (config matches Some(c) && b@ == c.bucket_name@),
{
    let demo_mode = match settings {
        Some(s) => s.demo_mode,
        None => default_demo_mode(),
    };
    match config {
        Some(c) => ConfigStatus { is_configured: true, demo_mode, bucket_name: Some(c.bucket_name.clone()) },
        None => ConfigStatus { is_configured: false, demo_mode, bucket_name: None },
    }
}

} // verus!
