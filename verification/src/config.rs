//! Instance configuration and its defaults.

use vstd::prelude::*;
use crate::text::{push_str, string_of};

verus! {

#[derive(Debug, Clone)]
pub struct Config {
    pub instance: InstanceConfig,
    pub datasource: DatasourceConfig,
    pub security: SecurityConfig,
    pub compat: CompatibilityConfig,
    pub files: FileStorageConfig,
    pub reject: RejectConfig,
}

#[derive(Debug, Clone)]
pub struct InstanceConfig {
    /// instance name, shown in nodeinfo and instance actor
    pub name: String,
    /// description, shown in nodeinfo and instance actor
    pub description: String,
    /// domain of current instance
    pub domain: String,
    /// contact information for an administrator, currently unused
    pub contact: Option<String>,
    /// base url for frontend, will be used to compose pretty urls
    pub frontend: Option<String>,
}

#[derive(Debug, Clone)]
pub struct DatasourceConfig {
    pub connection_string: String,
    pub max_connections: u32,
    pub min_connections: u32,
    pub connect_timeout_seconds: u64,
    pub acquire_timeout_seconds: u64,
    /// threshold for queries to be considered slow
    pub slow_query_warn_seconds: u64,
    /// enable logging warn for slow queries
    pub slow_query_warn_enable: bool,
}

#[derive(Debug, Clone)]
pub struct SecurityConfig {
    /// allow new users to register autonomously
    pub allow_registration: bool,
    /// newly registered users require manual activation
    pub require_user_approval: bool,
    /// allow anonymous users access to fetch debugger (explore screen)
    pub allow_public_debugger: bool,
    /// allow anonymous users to perform full-text searches
    pub allow_public_search: bool,
    /// secret for media proxy, set this to something random
    pub proxy_secret: String,
    /// allow expired tokens to be refreshed
    pub allow_login_refresh: bool,
    /// how long do login sessions last
    pub session_duration_hours: i64,
    /// how many times we allow an object to redirect
    pub max_id_redirects: u32,
    /// how deep should threads be crawled for fetching replies
    pub thread_crawl_depth: u32,
    /// how long before a job is considered stale and dropped
    pub job_expiration_days: u32,
    /// how many times to attempt inserting back incomplete jobs
    pub reinsertion_attempt_limit: u32,
}

#[derive(Debug, Clone)]
pub struct CompatibilityConfig {
    /// compatibility with almost everything: set image attachments as images
    pub fix_attachment_images_media_type: bool,
    /// compatibility with lemmy and mastodon: notify like receiver
    pub add_explicit_target_to_likes_if_local: bool,
    /// compatibility with lemmy: avoid showing images twice
    pub skip_single_attachment_if_image_is_set: bool,
}

#[derive(Debug, Clone)]
pub struct FileStorageConfig {
    /// path where media files should be stored
    pub path: String,
}

#[derive(Debug, Clone)]
pub struct RejectConfig {
    /// discard incoming activities from these instances
    pub incoming: Vec<String>,
    /// prevent proxying media coming from these instances
    pub media: Vec<String>,
    /// skip delivering to these instances
    pub delivery: Vec<String>,
    /// prevent fetching from these instances (ineffective as they can still fetch without identifying)
    pub fetch: Vec<String>,
    /// prevent fetching private content from these instances
    pub access: Vec<String>,
}

impl Default for InstanceConfig {
    fn default() -> (r: Self)
        ensures
            r.name@ == "μpub"@,
            r.description@ == "micro social network, federated"@,
            r.domain@ == "upub.social"@,
            r.contact is None,
            r.frontend is None,
    {
        InstanceConfig {
            name: String::from_str("μpub"),
            description: String::from_str("micro social network, federated"),
            domain: String::from_str("upub.social"),
            contact: None,
            frontend: None,
        }
    }
}

impl Default for DatasourceConfig {
    fn default() -> (r: Self)
        ensures
            r.connection_string@ == "sqlite://./upub.db"@,
            r.max_connections == 32,
            r.min_connections == 1,
            r.connect_timeout_seconds == 90,
            r.acquire_timeout_seconds == 30,
            r.slow_query_warn_seconds == 10,
            r.slow_query_warn_enable,
    {
        DatasourceConfig {
            connection_string: String::from_str("sqlite://./upub.db"),
            max_connections: 32,
            min_connections: 1,
            connect_timeout_seconds: 90,
            acquire_timeout_seconds: 30,
            slow_query_warn_seconds: 10,
            slow_query_warn_enable: true,
        }
    }
}

impl Default for SecurityConfig {
    fn default() -> (r: Self)
        ensures
            !r.allow_registration,
            !r.require_user_approval,
            !r.allow_public_debugger,
            !r.allow_public_search,
            r.proxy_secret@ == "changeme"@,
            r.allow_login_refresh,
            r.session_duration_hours == 7 * 24,
            r.max_id_redirects == 2,
            r.thread_crawl_depth == 20,
            r.job_expiration_days == 30,
            r.reinsertion_attempt_limit == 100,
    {
        SecurityConfig {
            allow_registration: false,
            require_user_approval: false,
            allow_public_debugger: false,
            allow_public_search: false,
            proxy_secret: String::from_str("changeme"),
            allow_login_refresh: true,
            session_duration_hours: 7 * 24,
            max_id_redirects: 2,
            thread_crawl_depth: 20,
            job_expiration_days: 30,
            reinsertion_attempt_limit: 100,
        }
    }
}

impl Default for CompatibilityConfig {
    fn default() -> (r: Self)
        ensures
            !r.fix_attachment_images_media_type,
            !r.add_explicit_target_to_likes_if_local,
            !r.skip_single_attachment_if_image_is_set,
    {
        CompatibilityConfig {
            fix_attachment_images_media_type: false,
            add_explicit_target_to_likes_if_local: false,
            skip_single_attachment_if_image_is_set: false,
        }
    }
}

impl Default for FileStorageConfig {
    fn default() -> (r: Self)
        ensures
            r.path@ == "files/"@,
    {
        FileStorageConfig { path: String::from_str("files/") }
    }
}

impl Default for RejectConfig {
    fn default() -> (r: Self)
        ensures
            r.incoming@.len() == 0,
            r.media@.len() == 0,
            r.delivery@.len() == 0,
            r.fetch@.len() == 0,
            r.access@.len() == 0,
    {
        RejectConfig {
            incoming: Vec::new(),
            media: Vec::new(),
            delivery: Vec::new(),
            fetch: Vec::new(),
            access: Vec::new(),
        }
    }
}

/// Every section at its default.
pub open spec fn default_sections(c: Config) -> bool {
    &&& c.instance.name@ == "μpub"@
    &&& c.instance.description@ == "micro social network, federated"@
    &&& c.instance.domain@ == "upub.social"@
    &&& c.instance.contact is None
    &&& c.instance.frontend is None
    &&& c.datasource.connection_string@ == "sqlite://./upub.db"@
    &&& c.datasource.max_connections == 32
    &&& c.datasource.min_connections == 1
    &&& c.datasource.connect_timeout_seconds == 90
    &&& c.datasource.acquire_timeout_seconds == 30
    &&& c.datasource.slow_query_warn_seconds == 10
    &&& c.datasource.slow_query_warn_enable
    &&& !c.security.allow_registration
    &&& !c.security.require_user_approval
    &&& !c.security.allow_public_debugger
    &&& !c.security.allow_public_search
    &&& c.security.proxy_secret@ == "changeme"@
    &&& c.security.allow_login_refresh
    &&& c.security.session_duration_hours == 7 * 24
    &&& c.security.max_id_redirects == 2
    &&& c.security.thread_crawl_depth == 20
    &&& c.security.job_expiration_days == 30
    &&& c.security.reinsertion_attempt_limit == 100
    &&& !c.compat.fix_attachment_images_media_type
    &&& !c.compat.add_explicit_target_to_likes_if_local
    &&& !c.compat.skip_single_attachment_if_image_is_set
    &&& c.files.path@ == "files/"@
    &&& c.reject.incoming@.len() == 0
    &&& c.reject.media@.len() == 0
    &&& c.reject.delivery@.len() == 0
    &&& c.reject.fetch@.len() == 0
    &&& c.reject.access@.len() == 0
}

impl Default for Config {
    fn default() -> (r: Self)
        ensures
            default_sections(r),
    {
        Config {
            instance: InstanceConfig::default(),
            datasource: DatasourceConfig::default(),
            security: SecurityConfig::default(),
            compat: CompatibilityConfig::default(),
            files: FileStorageConfig::default(),
            reject: RejectConfig::default(),
        }
    }
}

impl Config {
    /// The frontend address of a path: the configured frontend base followed by
    /// `url`, or `None` when no frontend is configured.
    pub fn frontend_url(&self, url: &str) -> (r: Option<String>)
        ensures
            match self.instance.frontend {
                Some(f) => r matches Some(s) && s@ == f@ + url@,
                None => r is None,
            },
    {
        match &self.instance.frontend {
            None => None,
            Some(f) => {
                let mut out: Vec<char> = Vec::new();
                push_str(&mut out, f.as_str());
                push_str(&mut out, url);
                Some(string_of(out.as_slice()))
            },
        }
    }
}

} // verus!
