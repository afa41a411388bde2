//! The settings of the integration and their defaults.

use std::path::PathBuf;
use vstd::prelude::*;
use vstd::string::*;

verus! {

/// `std::path::PathBuf`, carried through as it is.
#[verifier::external_type_specification]
#[verifier::external_body]
pub struct ExPathBuf(PathBuf);

fn default_executor_profile() -> (profile: String)
    ensures
        profile@ == "default"@,
{
    String::from_str("default")
}

fn default_research_timeout() -> (minutes: u32)
    ensures
        minutes == 120,
{
    120
}

fn default_design_timeout() -> (minutes: u32)
    ensures
        minutes == 480,
{
    480
}

fn default_development_timeout() -> (minutes: u32)
    ensures
        minutes == 960,
{
    960
}

fn default_qa_timeout() -> (minutes: u32)
    ensures
        minutes == 240,
{
    240
}

fn default_deployment_timeout() -> (minutes: u32)
    ensures
        minutes == 240,
{
    240
}

fn default_true() -> (flag: bool)
    ensures
        flag,
{
    true
}

fn default_sync_interval() -> (seconds: u64)
    ensures
        seconds == 30,
{
    30
}

fn default_nextjs_version() -> (version: String)
    ensures
        version@ == "latest"@,
{
    String::from_str("latest")
}

fn default_package_manager() -> (manager: String)
    ensures
        manager@ == "npm"@,
{
    String::from_str("npm")
}

fn default_log_level() -> (level: String)
    ensures
        level@ == "info"@,
{
    String::from_str("info")
}

fn default_max_concurrent_projects() -> (count: u32)
    ensures
        count == 10,
{
    10
}

fn default_one() -> (count: u32)
    ensures
        count == 1,
{
    1
}

fn default_max_retries() -> (count: u32)
    ensures
        count == 3,
{
    3
}

fn default_retry_delay() -> (seconds: u64)
    ensures
        seconds == 5,
{
    5
}

fn default_max_file_size() -> (megabytes: u32)
    ensures
        megabytes == 50,
{
    50
}

/// The file types that a deliverable may have unless the settings say
/// otherwise.
pub open spec fn spec_default_file_types() -> Seq<Seq<char>> {
    seq!["pdf"@, "png"@, "jpg"@, "jpeg"@, "gif"@, "svg"@, "md"@, "txt"@, "json"@]
}

fn default_allowed_file_types() -> (types: Vec<String>)
    ensures
        types.deep_view() == spec_default_file_types(),
{
    let types = vec![
        String::from_str("pdf"),
        String::from_str("png"),
        String::from_str("jpg"),
        String::from_str("jpeg"),
        String::from_str("gif"),
        String::from_str("svg"),
        String::from_str("md"),
        String::from_str("txt"),
        String::from_str("json"),
    ];
    assert(types.deep_view() =~= spec_default_file_types());
    types
}

fn default_cleanup_days() -> (days: u32)
    ensures
        days == 90,
{
    90
}

fn default_worktree_max_age() -> (hours: u32)
    ensures
        hours == 48,
{
    48
}

/// Where the remote backend is and how to sign in.
#[derive(Clone, Debug)]
pub struct SupabaseConfigSection {
    pub url: Option<String>,
    pub anon_key: Option<String>,
    /// The elevated key, for operations that the restricted key may not do.
    pub service_role_key: Option<String>,
}

impl Default for SupabaseConfigSection {
    fn default() -> (section: Self)
        ensures
            section.url.is_none(),
            section.anon_key.is_none(),
            section.service_role_key.is_none(),
    {
        SupabaseConfigSection { url: None, anon_key: None, service_role_key: None }
    }
}

/// Who runs the AI stages, and for how long at most, in minutes.
#[derive(Clone, Debug)]
pub struct ExecutorConfig {
    pub default_profile: String,
    pub research_timeout_minutes: u32,
    pub design_timeout_minutes: u32,
    pub development_timeout_minutes: u32,
    pub qa_timeout_minutes: u32,
    pub deployment_timeout_minutes: u32,
}

impl ExecutorConfig {
    /// True where every setting of the section has its default.
    pub open spec fn is_default(&self) -> bool {
        &&& self.default_profile@ == "default"@
        &&& self.research_timeout_minutes == 120
        &&& self.design_timeout_minutes == 480
        &&& self.development_timeout_minutes == 960
        &&& self.qa_timeout_minutes == 240
        &&& self.deployment_timeout_minutes == 240
    }
}

impl Default for ExecutorConfig {
    fn default() -> (config: Self)
        ensures
            config.is_default(),
    {
        ExecutorConfig {
            default_profile: default_executor_profile(),
            research_timeout_minutes: default_research_timeout(),
            design_timeout_minutes: default_design_timeout(),
            development_timeout_minutes: default_development_timeout(),
            qa_timeout_minutes: default_qa_timeout(),
            deployment_timeout_minutes: default_deployment_timeout(),
        }
    }
}

/// How approvals travel between the two sides.
#[derive(Clone, Debug)]
pub struct ApprovalsConfig {
    /// Register every approval at the remote backend.
    pub auto_create_in_webassist: bool,
    /// Seconds between two passes that compare the two sides.
    pub sync_interval_seconds: u64,
    /// Take answers from both sides.
    pub bidirectional_approvals: bool,
}

impl ApprovalsConfig {
    /// True where every setting of the section has its default.
    pub open spec fn is_default(&self) -> bool {
        &&& self.auto_create_in_webassist
        &&& self.sync_interval_seconds == 30
        &&& self.bidirectional_approvals
    }
}

impl Default for ApprovalsConfig {
    fn default() -> (config: Self)
        ensures
            config.is_default(),
    {
        ApprovalsConfig {
            auto_create_in_webassist: default_true(),
            sync_interval_seconds: default_sync_interval(),
            bidirectional_approvals: default_true(),
        }
    }
}

/// How the code project of a client is set up.
#[derive(Clone, Debug)]
pub struct NextJsConfig {
    pub version: String,
    pub typescript: bool,
    pub tailwind: bool,
    pub app_router: bool,
    /// npm, pnpm, yarn or bun.
    pub package_manager: String,
}

impl NextJsConfig {
    /// True where every setting of the section has its default.
    pub open spec fn is_default(&self) -> bool {
        &&& self.version@ == "latest"@
        &&& self.typescript
        &&& self.tailwind
        &&& self.app_router
        &&& self.package_manager@ == "npm"@
    }
}

impl Default for NextJsConfig {
    fn default() -> (config: Self)
        ensures
            config.is_default(),
    {
        NextJsConfig {
            version: default_nextjs_version(),
            typescript: default_true(),
            tailwind: default_true(),
            app_router: default_true(),
            package_manager: default_package_manager(),
        }
    }
}

/// What is logged.
#[derive(Clone, Debug)]
pub struct MonitoringConfig {
    pub log_level: String,
    pub log_webhooks: bool,
    pub log_api_calls: bool,
    pub log_task_execution: bool,
}

impl MonitoringConfig {
    /// True where every setting of the section has its default.
    pub open spec fn is_default(&self) -> bool {
        &&& self.log_level@ == "info"@
        &&& self.log_webhooks
        &&& self.log_api_calls
        &&& self.log_task_execution
    }
}

impl Default for MonitoringConfig {
    fn default() -> (config: Self)
        ensures
            config.is_default(),
    {
        MonitoringConfig {
            log_level: default_log_level(),
            log_webhooks: default_true(),
            log_api_calls: default_true(),
            log_task_execution: default_true(),
        }
    }
}

/// Limits on what runs at once and on retries.
#[derive(Clone, Debug)]
pub struct PerformanceConfig {
    pub max_concurrent_projects: u32,
    pub max_concurrent_tasks_per_project: u32,
    pub retry_failed_api_calls: bool,
    pub max_api_retries: u32,
    pub retry_delay_seconds: u64,
}

impl PerformanceConfig {
    /// True where every setting of the section has its default.
    pub open spec fn is_default(&self) -> bool {
        &&& self.max_concurrent_projects == 10
        &&& self.max_concurrent_tasks_per_project == 1
        &&& self.retry_failed_api_calls
        &&& self.max_api_retries == 3
        &&& self.retry_delay_seconds == 5
    }
}

impl Default for PerformanceConfig {
    fn default() -> (config: Self)
        ensures
            config.is_default(),
    {
        PerformanceConfig {
            max_concurrent_projects: default_max_concurrent_projects(),
            max_concurrent_tasks_per_project: default_one(),
            retry_failed_api_calls: default_true(),
            max_api_retries: default_max_retries(),
            retry_delay_seconds: default_retry_delay(),
        }
    }
}

/// Limits on deliverables.
#[derive(Clone, Debug)]
pub struct FilesConfig {
    pub max_deliverable_size_mb: u32,
    pub allowed_file_types: Vec<String>,
    pub cleanup_after_days: u32,
    pub compress_deliverables: bool,
}

impl FilesConfig {
    /// True where every setting of the section has its default.
    pub open spec fn is_default(&self) -> bool {
        &&& self.max_deliverable_size_mb == 50
        &&& self.allowed_file_types.deep_view() == spec_default_file_types()
        &&& self.cleanup_after_days == 90
        &&& self.compress_deliverables
    }
}

impl Default for FilesConfig {
    fn default() -> (config: Self)
        ensures
            config.is_default(),
    {
        FilesConfig {
            max_deliverable_size_mb: default_max_file_size(),
            allowed_file_types: default_allowed_file_types(),
            cleanup_after_days: default_cleanup_days(),
            compress_deliverables: default_true(),
        }
    }
}

/// Switches for features that are not commonly needed.
#[derive(Clone, Debug)]
pub struct AdvancedConfig {
    pub experimental_features: bool,
    pub use_git_worktrees: bool,
    pub auto_cleanup_worktrees: bool,
    /// Hours after which an orphaned worktree is removed.
    pub worktree_max_age_hours: u32,
    pub enable_parallel_tasks: bool,
}

impl AdvancedConfig {
    /// True where every setting of the section has its default.
    pub open spec fn is_default(&self) -> bool {
        &&& !self.experimental_features
        &&& self.use_git_worktrees
        &&& self.auto_cleanup_worktrees
        &&& self.worktree_max_age_hours == 48
        &&& !self.enable_parallel_tasks
    }
}

impl Default for AdvancedConfig {
    fn default() -> (config: Self)
        ensures
            config.is_default(),
    {
        AdvancedConfig {
            experimental_features: false,
            use_git_worktrees: default_true(),
            auto_cleanup_worktrees: default_true(),
            worktree_max_age_hours: default_worktree_max_age(),
            enable_parallel_tasks: false,
        }
    }
}

/// The settings of the integration.
#[derive(Clone, Debug)]
pub struct WebAssistConfig {
    pub enabled: bool,
    /// The secret that signs the events of the remote backend.
    pub webhook_secret: Option<String>,
    /// The directory that holds the projects.
    pub projects_directory: Option<PathBuf>,
    pub supabase: SupabaseConfigSection,
    pub executor: ExecutorConfig,
    pub approvals: ApprovalsConfig,
    pub nextjs: NextJsConfig,
    pub monitoring: MonitoringConfig,
    pub performance: PerformanceConfig,
    pub files: FilesConfig,
    pub advanced: AdvancedConfig,
}

impl Default for WebAssistConfig {
    /// The integration switched off, nothing configured, every section at
    /// its defaults.
    fn default() -> (config: Self)
        ensures
            !config.enabled,
            config.webhook_secret.is_none(),
            config.projects_directory.is_none(),
            config.supabase.url.is_none(),
            config.supabase.anon_key.is_none(),
            config.supabase.service_role_key.is_none(),
            config.executor.is_default(),
            config.approvals.is_default(),
            config.nextjs.is_default(),
            config.monitoring.is_default(),
            config.performance.is_default(),
            config.files.is_default(),
            config.advanced.is_default(),
            !config.spec_is_valid(),
    {
        WebAssistConfig {
            enabled: false,
            webhook_secret: None,
            projects_directory: None,
            supabase: SupabaseConfigSection::default(),
            executor: ExecutorConfig::default(),
            approvals: ApprovalsConfig::default(),
            nextjs: NextJsConfig::default(),
            monitoring: MonitoringConfig::default(),
            performance: PerformanceConfig::default(),
            files: FilesConfig::default(),
            advanced: AdvancedConfig::default(),
        }
    }
}

impl WebAssistConfig {
    /// The settings are valid where the integration is switched on and
    /// the secret, the directory, the backend's address and the elevated key
    /// are all configured.
    pub open spec fn spec_is_valid(&self) -> bool {
        &&& self.enabled
        &&& self.webhook_secret.is_some()
        &&& self.projects_directory.is_some()
        &&& self.supabase.url.is_some()
        &&& self.supabase.service_role_key.is_some()
    }

    /// True where the settings are valid and complete.
    pub fn is_valid(&self) -> (valid: bool)
        ensures
            valid == self.spec_is_valid(),
    {
        if !self.enabled {
            return false;
        }
        self.webhook_secret.is_some() && self.projects_directory.is_some()
            && self.supabase.url.is_some() && self.supabase.service_role_key.is_some()
    }

    /// The secret that signs the events. It must be configured.
    pub fn webhook_secret(&self) -> (secret: &str)
        requires
            self.webhook_secret.is_some(),
        ensures
            secret@ == self.webhook_secret.unwrap()@,
    {
        self.webhook_secret.as_ref().unwrap().as_str()
    }

    /// The directory that holds the projects. It must be configured.
    pub fn projects_directory(&self) -> (directory: &PathBuf)
        requires
            self.projects_directory.is_some(),
        ensures
            *directory == self.projects_directory.unwrap(),
    {
        self.projects_directory.as_ref().unwrap()
    }

    /// The address of the remote backend. It must be configured.
    pub fn supabase_url(&self) -> (url: &str)
        requires
            self.supabase.url.is_some(),
        ensures
            url@ == self.supabase.url.unwrap()@,
    {
        self.supabase.url.as_ref().unwrap().as_str()
    }

    /// The elevated key of the remote backend. It must be configured.
    pub fn supabase_service_role_key(&self) -> (key: &str)
        requires
            self.supabase.service_role_key.is_some(),
        ensures
            key@ == self.supabase.service_role_key.unwrap()@,
    {
        self.supabase.service_role_key.as_ref().unwrap().as_str()
    }
}

} // verus!
