//! Application assembly after configuration has passed fail-closed validation.
//!
//! Bootstrap owns dependency construction only; incident decisions remain in
//! the reasoning runtime and adapters retain all vendor/process boundaries.

use crate::adapters::context::{self, ReadOnlyRunner};
use crate::adapters::grafana::context::{GrafanaContext, GrafanaContextConfig};
use crate::adapters::grafana::gcx::{GcxRunner, RunnerView};
use crate::adapters::llm::openai::{AuthCache, OpenAiOAuth};
use crate::config;
use crate::config::{AppConfig, ConfigError, ReadOnlyConfig};
use vstd::prelude::*;

verus! {

/// Assembled dependencies for one process instance.
pub struct Application {
    /// Read-only Grafana context adapter.
    pub grafana: GrafanaContext,
    /// Bounds of the Git, deployment-history, and health context adapter.
    pub read_only: ReadOnlyRunner,
    /// Selectors of the Git, deployment-history, and health context adapter.
    pub read_only_config: ReadOnlyConfig,
    /// OpenAI refresh-token cache boundary.
    pub openai_cache: AuthCache,
    /// OpenAI OAuth transport boundary.
    pub openai_oauth: OpenAiOAuth,
}

/// Bootstrap failures before the application becomes available.
#[derive(Debug, Clone, Copy, PartialEq, Eq, Structural)]
pub enum BootstrapError {
    /// Configuration failed validation.
    Configuration(ConfigError),
    /// Reasoning policy could not be assembled.
    Reasoning,
}

/// What the reasoning core says of a configuration.
#[derive(Debug, Clone, Copy, PartialEq, Eq, Structural)]
pub struct CoreVerdict {
    /// The provider order is valid.
    pub provider_order_valid: bool,
    /// The incident runtime could be assembled.
    pub runtime_assembled: bool,
    /// The read-only context accepts its selectors.
    pub read_only_accepted: bool,
}

/// Why an application is not assembled.
pub open spec fn build_error(config: AppConfig, core: CoreVerdict) -> Option<BootstrapError> {
    match config::config_error(config, core.provider_order_valid) {
        Some(error) => Some(BootstrapError::Configuration(error)),
        None => if !core.runtime_assembled {
            Some(BootstrapError::Reasoning)
        } else if !core.read_only_accepted {
            Some(BootstrapError::Configuration(ConfigError::RelativeReadOnlyPath))
        } else {
            None
        },
    }
}

/// Validates policy and assembles all non-secret dependencies.
pub fn build(config: AppConfig, core: CoreVerdict) -> (r: Result<Application, BootstrapError>)
    ensures
        match r {
            Ok(application) => {
                &&& build_error(config, core) is None
                &&& application.grafana.bounds() == (RunnerView {
                    binary: config.gcx_binary@,
                    timeout_seconds: config.gcx_timeout_secs,
                    max_output_bytes: config.gcx_max_output_bytes,
                    max_query_bytes: config.gcx_max_query_bytes,
                    max_concurrency: config.gcx_max_concurrency,
                })
                &&& application.grafana.datasources() == (GrafanaContextConfig {
                    logs_datasource: config.grafana.logs_datasource,
                    metrics_datasource: config.grafana.metrics_datasource,
                })
                &&& application.read_only == (ReadOnlyRunner {
                    timeout_seconds: config.gcx_timeout_secs,
                    max_output_bytes: context::clamped(
                        config.gcx_max_output_bytes,
                        1,
                        context::MAX_OUTPUT_BYTES,
                    ),
                    max_concurrency: config.gcx_max_concurrency,
                })
                &&& application.read_only_config == config.read_only
                &&& application.openai_cache.location() == config.openai_cache_path@
                &&& application.openai_oauth.address() == "https://auth.openai.com/oauth/token"@
            },
            Err(error) => build_error(config, core) == Some(error),
        },
{
    match config.validate(core.provider_order_valid) {
        Ok(()) => {},
        Err(error) => return Err(BootstrapError::Configuration(error)),
    }
    if !core.runtime_assembled {
        return Err(BootstrapError::Reasoning);
    }
    if !core.read_only_accepted {
        return Err(BootstrapError::Configuration(ConfigError::RelativeReadOnlyPath));
    }
    let runner = GcxRunner::new(
        config.gcx_binary.as_str(),
        config.gcx_timeout_secs,
        config.gcx_max_output_bytes,
    ).with_max_query_bytes(config.gcx_max_query_bytes).with_max_concurrency(
        config.gcx_max_concurrency,
    );
    let read_only = ReadOnlyRunner::new(
        config.gcx_timeout_secs,
        config.gcx_max_output_bytes,
        config.gcx_max_concurrency,
    );
    let openai_cache = AuthCache::new(config.openai_cache_path.as_str());
    let grafana = GrafanaContext::new(
        runner,
        GrafanaContextConfig {
            logs_datasource: config.grafana.logs_datasource,
            metrics_datasource: config.grafana.metrics_datasource,
        },
    );
    Ok(
        Application {
            grafana,
            read_only,
            read_only_config: config.read_only,
            openai_cache,
            openai_oauth: OpenAiOAuth::new(),
        },
    )
}

/// Checks reasoning policy without constructing external clients, given whether a run could be
/// assembled from it.
pub fn validate_reasoning(run_assembled: bool) -> (r: Result<(), BootstrapError>)
    ensures
        r == (if run_assembled {
            Ok(())
        } else {
            Err(BootstrapError::Reasoning)
        }),
{
    if run_assembled {
        Ok(())
    } else {
        Err(BootstrapError::Reasoning)
    }
}

/// An application is built exactly from an accepted configuration whose runtime and read-only
/// context can be assembled.
pub proof fn applications_are_built_exactly_from_accepted_parts(
    config: AppConfig,
    core: CoreVerdict,
)
    ensures
        ({
            let invalid = config::config_error(config, core.provider_order_valid);
            let error = build_error(config, core);
            &&& error is None <==> invalid is None && core.runtime_assembled
                && core.read_only_accepted
            &&& invalid matches Some(reason) ==> error == Some(
                BootstrapError::Configuration(reason),
            )
            &&& invalid is None && !core.runtime_assembled ==> error == Some(
                BootstrapError::Reasoning,
            )
            &&& invalid is None && core.runtime_assembled && !core.read_only_accepted ==> error
                == Some(BootstrapError::Configuration(ConfigError::RelativeReadOnlyPath))
        }),
{
}

} // verus!
