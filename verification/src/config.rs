//! Server settings, their defaults, and the `FIREBASE_*` overrides.

use vstd::prelude::*;

use crate::text::{
    chars_of, decimal, decimal_u64, push_all, push_str, replace_all, replace_chars, str_eq, string_of,
};

verus! {

/// The settings of the server. Paths are held as text.
#[derive(Clone, Debug)]
pub struct ServerConfig {
    pub host: String,
    pub port: u16,
    pub data_dir: String,
    pub database_url: String,
    pub firebase_project_id: String,
    pub signed_url_secret: String,
    /// Largest upload in bytes; `None` or `0` means no limit.
    pub max_upload_size: Option<usize>,
    pub base_url: String,
    pub security_rules_path: Option<String>,
    pub firebase_client_email: Option<String>,
    pub firebase_private_key: Option<String>,
    pub firebase_api_key: Option<String>,
    pub firebase_auth_domain: Option<String>,
    pub firebase_storage_bucket: Option<String>,
    pub backup_dir: String,
    pub backup_retention_count: usize,
    pub backup_auto_interval_hours: u64,
    pub auto_create_buckets: bool,
    pub default_bucket_location: String,
}

/// Values of the `FIREBASE_*` environment variables, when set.
#[derive(Clone, Debug)]
pub struct FirebaseEnv {
    pub project_id: Option<String>,
    pub client_email: Option<String>,
    pub private_key: Option<String>,
    pub api_key: Option<String>,
    pub auth_domain: Option<String>,
    pub storage_bucket: Option<String>,
}

/// Default bind address.
pub fn default_host() -> (s: String)
    ensures
        s@ == "0.0.0.0"@,
{
    "0.0.0.0".to_owned()
}

/// Default port.
pub fn default_port() -> (p: u16)
    ensures
        p == 8091,
{
    8091
}

/// Default data directory.
pub fn default_data_dir() -> (s: String)
    ensures
        s@ == "./data"@,
{
    "./data".to_owned()
}

/// Default database location.
pub fn default_database_url() -> (s: String)
    ensures
        s@ == "sqlite://./data/storage.db"@,
{
    "sqlite://./data/storage.db".to_owned()
}

/// Default Firebase project.
pub fn default_firebase_project_id() -> (s: String)
    ensures
        s@ == "your-firebase-project-id"@,
{
    "your-firebase-project-id".to_owned()
}

/// Default signing secret.
pub fn default_signed_url_secret() -> (s: String)
    ensures
        s@ == "change-me-signed-url-secret"@,
{
    "change-me-signed-url-secret".to_owned()
}

/// Default backup directory.
pub fn default_backup_dir() -> (s: String)
    ensures
        s@ == "./backups"@,
{
    "./backups".to_owned()
}

/// Default number of backups kept.
pub fn default_backup_retention() -> (n: usize)
    ensures
        n == 10,
{
    10
}

/// Default public base URL.
pub fn default_base_url() -> (s: String)
    ensures
        s@ == "http://localhost:8091"@,
{
    "http://localhost:8091".to_owned()
}

/// Buckets are created on demand by default.
pub fn default_auto_create_buckets() -> (b: bool)
    ensures
        b,
{
    true
}

/// Default location of created buckets.
pub fn default_bucket_location() -> (s: String)
    ensures
        s@ == "us-central1"@,
{
    "us-central1".to_owned()
}

/// The value an override sets: a non-empty variable replaces the setting.
pub open spec fn overridden(current: Option<String>, var: Option<String>) -> Option<String> {
    match var {
        Some(v) => if v@.len() > 0 {
            Some(v)
        } else {
            current
        },
        None => current,
    }
}

/// Whether an environment value is set and not empty.
fn present(v: &Option<String>) -> (b: bool)
    ensures
        b == (v matches Some(s) && s@.len() > 0),
{
    match v {
        Some(s) => chars_of(s.as_str()).len() > 0,
        None => false,
    }
}

impl ServerConfig {
    /// Whether a Firebase project has been named: the id is neither empty
    /// nor the placeholder that stands when none was given.
    pub fn project_id_configured(&self) -> (b: bool)
        ensures
            b == (self.firebase_project_id@.len() > 0 && self.firebase_project_id@
                != "your-firebase-project-id"@),
    {
        let placeholder = default_firebase_project_id();
        chars_of(self.firebase_project_id.as_str()).len() > 0 && !str_eq(
            self.firebase_project_id.as_str(),
            placeholder.as_str(),
        )
    }

    /// `host:port`.
    pub fn listen_addr(&self) -> (s: String)
        ensures
            s@ == self.host@ + ":"@ + decimal(self.port as nat),
    {
        let mut out: Vec<char> = Vec::new();
        push_str(&mut out, self.host.as_str());
        push_str(&mut out, ":");
        let d = decimal_u64(self.port as u64);
        push_all(&mut out, &d);
        string_of(out.as_slice())
    }

    /// Applies the `FIREBASE_*` variables that are set and not empty; in the
    /// private key, the two characters `\n` become line breaks.
    pub fn apply_firebase_env_overrides(&mut self, env: &FirebaseEnv)
        ensures
            final(self).firebase_project_id@ == (match env.project_id {
                Some(v) => if v@.len() > 0 {
                    v@
                } else {
                    old(self).firebase_project_id@
                },
                None => old(self).firebase_project_id@,
            }),
            final(self).firebase_client_email == overridden(
                old(self).firebase_client_email,
                env.client_email,
            ),
            match env.private_key {
                Some(v) => if v@.len() > 0 {
                    final(self).firebase_private_key matches Some(k) && k@ == replace_all(
                        v@,
                        "\\n"@,
                        "\n"@,
                    )
                } else {
                    final(self).firebase_private_key == old(self).firebase_private_key
                },
                None => final(self).firebase_private_key == old(self).firebase_private_key,
            },
            final(self).firebase_api_key == overridden(old(self).firebase_api_key, env.api_key),
            final(self).firebase_auth_domain == overridden(
                old(self).firebase_auth_domain,
                env.auth_domain,
            ),
            final(self).firebase_storage_bucket == overridden(
                old(self).firebase_storage_bucket,
                env.storage_bucket,
            ),
            final(self).host == old(self).host,
            final(self).port == old(self).port,
            final(self).data_dir == old(self).data_dir,
            final(self).database_url == old(self).database_url,
            final(self).signed_url_secret == old(self).signed_url_secret,
            final(self).max_upload_size == old(self).max_upload_size,
            final(self).base_url == old(self).base_url,
            final(self).security_rules_path == old(self).security_rules_path,
            final(self).backup_dir == old(self).backup_dir,
            final(self).backup_retention_count == old(self).backup_retention_count,
            final(self).backup_auto_interval_hours == old(self).backup_auto_interval_hours,
            final(self).auto_create_buckets == old(self).auto_create_buckets,
            final(self).default_bucket_location == old(self).default_bucket_location,
    {
        if present(&env.project_id) {
            self.firebase_project_id = env.project_id.clone().unwrap();
        }
        if present(&env.client_email) {
            self.firebase_client_email = env.client_email.clone();
        }
        if present(&env.private_key) {
            let raw = chars_of(env.private_key.as_ref().unwrap().as_str());
            let escaped = chars_of("\\n");
            let newline = chars_of("\n");
            proof {
                reveal_strlit("\\n");
            }
            let key = replace_chars(&raw, &escaped, &newline);
            self.firebase_private_key = Some(string_of(key.as_slice()));
        }
        if present(&env.api_key) {
            self.firebase_api_key = env.api_key.clone();
        }
        if present(&env.auth_domain) {
            self.firebase_auth_domain = env.auth_domain.clone();
        }
        if present(&env.storage_bucket) {
            self.firebase_storage_bucket = env.storage_bucket.clone();
        }
    }
}

} // verus!
