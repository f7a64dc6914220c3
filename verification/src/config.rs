//! Versioned, secret-free application configuration and startup validation.
//!
//! Credentials are injected separately; this module holds only policy,
//! resource limits, paths, provider order, and datasource identifiers.

use crate::files;
use crate::reasoning::budget::BudgetConfig;
use crate::reasoning::coordinator::ReasoningConfig;
use crate::reasoning::router::{ProviderKind, ProviderOrder};
use crate::text;
use crate::text::trim;
use vstd::prelude::*;

verus! {

/// Complete non-secret configuration required to assemble the application.
#[derive(Debug, Clone, PartialEq, Eq)]
pub struct AppConfig {
    /// Reasoning provider order and incident budgets.
    pub reasoning: ReasoningConfig,
    /// Grafana read-only context settings.
    pub grafana: GrafanaConfig,
    /// Server-owned Git, deployment-history, and health context policy.
    pub read_only: ReadOnlyConfig,
    /// OpenAI rotating refresh-token cache path.
    pub openai_cache_path: String,
    /// Pinned `gcx` executable path.
    pub gcx_binary: String,
    /// Maximum `gcx` process duration in seconds.
    pub gcx_timeout_secs: u64,
    /// Maximum stdout/stderr bytes accepted from `gcx`.
    pub gcx_max_output_bytes: usize,
    /// Maximum UTF-8 query expression bytes accepted by policy.
    pub gcx_max_query_bytes: usize,
    /// Maximum concurrent read-only `gcx` processes.
    pub gcx_max_concurrency: usize,
}

/// Deployment-owned process and repository selectors for non-Grafana context.
#[derive(Debug, Clone, PartialEq, Eq)]
pub struct ReadOnlyConfig {
    /// Absolute Git executable path.
    pub git_binary: String,
    /// Absolute canonical Git repository root.
    pub git_repository: String,
    /// Absolute health adapter executable path.
    pub health_binary: String,
    /// Fixed health aliases and argument vectors, in the order of the aliases.
    pub health_commands: Vec<(String, Vec<String>)>,
}

/// Fixed Grafana datasource identifiers used by read-only queries.
#[derive(Debug, Clone, PartialEq, Eq)]
pub struct GrafanaConfig {
    /// Loki datasource UID or alias.
    pub logs_datasource: String,
    /// Prometheus datasource UID or alias.
    pub metrics_datasource: String,
}

/// Startup validation failures that must stop the service before I/O.
#[derive(Debug, Clone, Copy, PartialEq, Eq, Structural)]
pub enum ConfigError {
    /// A required identifier or path is empty.
    EmptyValue,
    /// A process resource bound is zero and would not provide a safe limit.
    ZeroLimit,
    /// The pinned child executable must not depend on the caller's working directory.
    RelativeGcxPath,
    /// A read-only context executable path was relative.
    RelativeReadOnlyPath,
    /// The provider order is invalid.
    InvalidProviderOrder,
}

impl Default for ReadOnlyConfig {
    fn default() -> (r: Self)
        ensures
            r.git_binary@ == "/usr/bin/git"@,
            r.git_repository@ == "/var/lib/ai-sre/git"@,
            r.health_binary@ == "/usr/local/bin/gatus-read"@,
            r.health_commands@.len() == 0,
    {
        ReadOnlyConfig {
            git_binary: "/usr/bin/git".to_owned(),
            git_repository: "/var/lib/ai-sre/git".to_owned(),
            health_binary: "/usr/local/bin/gatus-read".to_owned(),
            health_commands: Vec::new(),
        }
    }
}

impl Default for GrafanaConfig {
    fn default() -> (r: Self)
        ensures
            r.logs_datasource@ == "loki"@,
            r.metrics_datasource@ == "prometheus"@,
    {
        GrafanaConfig {
            logs_datasource: "loki".to_owned(),
            metrics_datasource: "prometheus".to_owned(),
        }
    }
}

/// A value that no adapter could use is missing.
pub open spec fn has_empty_value(config: AppConfig) -> bool {
    ||| config.openai_cache_path@.len() == 0
    ||| config.gcx_binary@.len() == 0
    ||| trim::is_blank(config.grafana.logs_datasource@)
    ||| trim::is_blank(config.grafana.metrics_datasource@)
}

/// A read-only context path depends on a working directory.
pub open spec fn has_relative_path(config: ReadOnlyConfig) -> bool {
    ||| !files::is_absolute(config.git_binary@)
    ||| !files::is_absolute(config.health_binary@)
    ||| trim::is_blank(config.git_repository@)
    ||| !files::is_absolute(config.git_repository@)
}

/// A resource bound is zero.
pub open spec fn has_zero_limit(config: AppConfig) -> bool {
    ||| config.gcx_timeout_secs == 0
    ||| config.gcx_max_output_bytes == 0
    ||| config.gcx_max_query_bytes == 0
    ||| config.gcx_max_concurrency == 0
}

/// Why a configuration is refused, given whether its provider order is valid.
pub open spec fn config_error(config: AppConfig, provider_order_valid: bool) -> Option<
    ConfigError,
> {
    if has_empty_value(config) {
        Some(ConfigError::EmptyValue)
    } else if !files::is_absolute(config.gcx_binary@) {
        Some(ConfigError::RelativeGcxPath)
    } else if has_relative_path(config.read_only) {
        Some(ConfigError::RelativeReadOnlyPath)
    } else if has_zero_limit(config) {
        Some(ConfigError::ZeroLimit)
    } else if !provider_order_valid {
        Some(ConfigError::InvalidProviderOrder)
    } else {
        None
    }
}

/// Configuration file loading failures that prevent startup.
#[derive(Debug, Clone, Copy, PartialEq, Eq, Structural)]
pub enum ConfigLoadError {
    /// The configuration file could not be read.
    Io,
    /// The configuration file was not valid JSON or policy.
    Parse,
    /// The parsed configuration failed safety validation.
    Validation(ConfigError),
}

impl AppConfig {
    /// Admits a parsed configuration, given whether its provider order is valid; one that could
    /// not be parsed is refused.
    pub fn from_json(parsed: Option<AppConfig>, provider_order_valid: bool) -> (r: Result<
        Self,
        ConfigLoadError,
    >)
        ensures
            match parsed {
                None => r == Err::<AppConfig, ConfigLoadError>(ConfigLoadError::Parse),
                Some(config) => match config_error(config, provider_order_valid) {
                    None => r == Ok::<AppConfig, ConfigLoadError>(config),
                    Some(error) => r == Err::<AppConfig, ConfigLoadError>(
                        ConfigLoadError::Validation(error),
                    ),
                },
            },
    {
        match parsed {
            None => Err(ConfigLoadError::Parse),
            Some(config) => match config.validate(provider_order_valid) {
                Ok(()) => Ok(config),
                Err(error) => Err(ConfigLoadError::Validation(error)),
            },
        }
    }

    /// The default configuration around a reasoning policy.
    pub fn with_reasoning(reasoning: ReasoningConfig) -> (r: Self)
        ensures
            r.reasoning == reasoning,
            r.grafana.logs_datasource@ == "loki"@,
            r.grafana.metrics_datasource@ == "prometheus"@,
            r.read_only.git_binary@ == "/usr/bin/git"@,
            r.read_only.git_repository@ == "/var/lib/ai-sre/git"@,
            r.read_only.health_binary@ == "/usr/local/bin/gatus-read"@,
            r.read_only.health_commands@.len() == 0,
            r.openai_cache_path@ == "/var/lib/ai-sre/openai/auth.json"@,
            r.gcx_binary@ == "/usr/local/bin/gcx"@,
            r.gcx_timeout_secs == 30,
            r.gcx_max_output_bytes == 1048576,
            r.gcx_max_query_bytes == 4096,
            r.gcx_max_concurrency == 4,
            config_error(r, true) is None,
    {
        let config = AppConfig {
            reasoning,
            grafana: GrafanaConfig::default(),
            read_only: ReadOnlyConfig::default(),
            openai_cache_path: "/var/lib/ai-sre/openai/auth.json".to_owned(),
            gcx_binary: "/usr/local/bin/gcx".to_owned(),
            gcx_timeout_secs: 30,
            gcx_max_output_bytes: 1048576,
            gcx_max_query_bytes: 4096,
            gcx_max_concurrency: 4,
        };
        proof {
            reveal_strlit("loki");
            reveal_strlit("prometheus");
            reveal_strlit("/usr/bin/git");
            reveal_strlit("/var/lib/ai-sre/git");
            reveal_strlit("/usr/local/bin/gatus-read");
            reveal_strlit("/var/lib/ai-sre/openai/auth.json");
            reveal_strlit("/usr/local/bin/gcx");
            assert(!trim::is_space("loki"@[0]));
            assert(!trim::is_space("prometheus"@[0]));
            assert(!trim::is_space("/var/lib/ai-sre/git"@[0]));
        }
        config
    }

    /// Rejects unsafe values before adapters or credentials are assembled, given whether the
    /// provider order is valid.
    pub fn validate(&self, provider_order_valid: bool) -> (r: Result<(), ConfigError>)
        ensures
            match r {
                Ok(()) => config_error(*self, provider_order_valid) is None,
                Err(error) => config_error(*self, provider_order_valid) == Some(error),
            },
    {
        if self.openai_cache_path.as_str().is_empty() || self.gcx_binary.as_str().is_empty()
            || trim::blank(self.grafana.logs_datasource.as_str()) || trim::blank(
            self.grafana.metrics_datasource.as_str(),
        ) {
            return Err(ConfigError::EmptyValue);
        }
        if !files::absolute(self.gcx_binary.as_str()) {
            return Err(ConfigError::RelativeGcxPath);
        }
        if !files::absolute(self.read_only.git_binary.as_str()) || !files::absolute(
            self.read_only.health_binary.as_str(),
        ) || trim::blank(self.read_only.git_repository.as_str()) || !files::absolute(
            self.read_only.git_repository.as_str(),
        ) {
            return Err(ConfigError::RelativeReadOnlyPath);
        }
        if self.gcx_timeout_secs == 0 || self.gcx_max_output_bytes == 0 || self.gcx_max_query_bytes
            == 0 || self.gcx_max_concurrency == 0 {
            return Err(ConfigError::ZeroLimit);
        }
        if !provider_order_valid {
            return Err(ConfigError::InvalidProviderOrder);
        }
        Ok(())
    }
}

/// Convenience constructor for deployments that override only policy values.
pub fn reasoning_config(order: ProviderOrder, budget: BudgetConfig) -> (r: ReasoningConfig)
    ensures
        r.provider_order == order,
        r.admitted_providers@ == seq![
            ProviderKind::OpenAi,
            ProviderKind::Gemini,
            ProviderKind::DeepSeek,
            ProviderKind::Deterministic,
        ],
        r.budget == budget,
        r.max_tool_turns == 4,
{
    ReasoningConfig {
        provider_order: order,
        admitted_providers: vec![
            ProviderKind::OpenAi,
            ProviderKind::Gemini,
            ProviderKind::DeepSeek,
            ProviderKind::Deterministic,
        ],
        budget,
        max_tool_turns: 4,
    }
}

/// An accepted configuration starts no process from a relative path or without bounds.
pub proof fn accepted_configurations_are_bounded(config: AppConfig, provider_order_valid: bool)
    requires
        config_error(config, provider_order_valid) is None,
    ensures
        files::is_absolute(config.gcx_binary@),
        files::is_absolute(config.read_only.git_binary@),
        files::is_absolute(config.read_only.git_repository@),
        files::is_absolute(config.read_only.health_binary@),
        config.gcx_timeout_secs > 0,
        config.gcx_max_output_bytes > 0,
        config.gcx_max_query_bytes > 0,
        config.gcx_max_concurrency > 0,
        provider_order_valid,
{
}

/// A configuration is accepted exactly where nothing required is missing, every program and the
/// repository have absolute paths, every limit is positive and the provider order holds; each
/// refusal names the first of these that fails.
pub proof fn configurations_are_accepted_exactly_where_safe(
    config: AppConfig,
    provider_order_valid: bool,
)
    ensures
        ({
            let worded = |s: Seq<char>| exists|i: int|
                0 <= i < s.len() && !trim::is_space(#[trigger] s[i]);
            let rooted = |s: Seq<char>| s.len() > 0 && s[0] == '/';
            let present = config.openai_cache_path@.len() > 0 && config.gcx_binary@.len() > 0
                && worded(config.grafana.logs_datasource@) && worded(
                config.grafana.metrics_datasource@,
            );
            let gcx = rooted(config.gcx_binary@);
            let read_only = rooted(config.read_only.git_binary@) && rooted(
                config.read_only.health_binary@,
            ) && rooted(config.read_only.git_repository@);
            let limited = config.gcx_timeout_secs > 0 && config.gcx_max_output_bytes > 0
                && config.gcx_max_query_bytes > 0 && config.gcx_max_concurrency > 0;
            let error = config_error(config, provider_order_valid);
            &&& error is None <==> present && gcx && read_only && limited && provider_order_valid
            &&& !present ==> error == Some(ConfigError::EmptyValue)
            &&& present && !gcx ==> error == Some(ConfigError::RelativeGcxPath)
            &&& present && gcx && !read_only ==> error == Some(ConfigError::RelativeReadOnlyPath)
            &&& present && gcx && read_only && !limited ==> error == Some(ConfigError::ZeroLimit)
            &&& present && gcx && read_only && limited && !provider_order_valid ==> error == Some(
                ConfigError::InvalidProviderOrder,
            )
        }),
{
    let repository = config.read_only.git_repository@;
    if repository.len() > 0 && repository[0] == '/' {
        assert(!trim::is_space(repository[0]));
    }
    let logs = config.grafana.logs_datasource@;
    let metrics = config.grafana.metrics_datasource@;
    assert(trim::is_blank(logs) == !exists|i: int|
        0 <= i < logs.len() && !trim::is_space(#[trigger] logs[i]));
    assert(trim::is_blank(metrics) == !exists|i: int|
        0 <= i < metrics.len() && !trim::is_space(#[trigger] metrics[i]));
}

} // verus!
