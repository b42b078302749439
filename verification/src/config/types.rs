//! The types of the configuration record.

use std::collections::HashMap;
use vstd::prelude::*;
use vstd::string::StringExecFns;
use crate::error::{ErrorKind, ProxyError};
use crate::text::{clone_names, names_of};

verus! {

/// The whole configuration record.
#[derive(Debug, Clone)]
pub struct AppConfig {
    pub http: HttpConfig,
    pub logging: LoggingConfig,
    pub mcp: McpConfig,
    pub endpoints: Vec<EndpointConfig>,
}

/// Where the HTTP surface listens.
#[derive(Debug, Clone)]
pub struct HttpConfig {
    pub host: String,
    pub port: u16,
}

/// How much is logged, and in which form.
#[derive(Debug, Clone)]
pub struct LoggingConfig {
    pub level: String,
    pub format: String,
}

/// The deadline of a request to a backend, in seconds, and the pause
/// between the two steps of a restart, in milliseconds.
#[derive(Debug, Clone)]
pub struct McpConfig {
    pub request_timeout_secs: u64,
    pub restart_delay_ms: u64,
}

/// One configured endpoint. Its routing path is `path` where that is
/// given and its name otherwise.
#[derive(Debug, Clone)]
pub struct EndpointConfig {
    pub name: String,
    pub path: Option<String>,
    pub endpoint_type: EndpointKindConfig,
    pub tools: Option<ToolFilter>,
}

/// The kind of a configured endpoint, with what only that kind needs: a
/// local endpoint is a command to run, a remote one an address to reach.
#[derive(Debug, Clone)]
pub enum EndpointKindConfig {
    Local { command: String, args: Vec<String>, env: HashMap<String, String>, auto_start: bool },
    Remote { url: String },
}

/// What it takes to launch a local endpoint's subprocess.
#[derive(Debug, Clone)]
pub struct LocalServerConfig {
    pub command: String,
    pub args: Vec<String>,
    pub env: HashMap<String, String>,
}

/// Which tools of an endpoint are exposed: those of `included`, where it
/// names any, without those of `exclude`.
#[derive(Debug)]
pub struct ToolFilter {
    pub included: Option<Vec<String>>,
    pub exclude: Option<Vec<String>>,
}

/// The names that a filter list holds: none where the list is absent.
pub open spec fn listed(list: Option<Vec<String>>) -> Seq<Seq<char>> {
    match list {
        Some(names) => names_of(names@),
        None => Seq::empty(),
    }
}

/// A filter as two lists of names, each absent or present.
pub struct ToolFilterView {
    pub included: Option<Seq<Seq<char>>>,
    pub exclude: Option<Seq<Seq<char>>>,
}

/// The names of an optional list, keeping whether the list is there.
pub open spec fn opt_names(list: Option<Vec<String>>) -> Option<Seq<Seq<char>>> {
    match list {
        Some(names) => Some(names_of(names@)),
        None => None,
    }
}

impl View for ToolFilter {
    type V = ToolFilterView;

    open spec fn view(&self) -> ToolFilterView {
        ToolFilterView { included: opt_names(self.included), exclude: opt_names(self.exclude) }
    }
}

/// The view of an optional filter.
pub open spec fn opt_filter(filter: Option<ToolFilter>) -> Option<ToolFilterView> {
    match filter {
        Some(f) => Some(f@),
        None => None,
    }
}

fn clone_opt_names(list: &Option<Vec<String>>) -> (copy: Option<Vec<String>>)
    ensures
        opt_names(copy) == opt_names(*list),
{
    match list {
        Some(names) => Some(clone_names(names)),
        None => None,
    }
}

impl Clone for ToolFilter {
    fn clone(&self) -> (copy: ToolFilter)
        ensures
            copy@ == self@,
    {
        ToolFilter {
            included: clone_opt_names(&self.included),
            exclude: clone_opt_names(&self.exclude),
        }
    }
}

/// A copy of an optional filter.
pub fn clone_filter(filter: &Option<ToolFilter>) -> (copy: Option<ToolFilter>)
    ensures
        opt_filter(copy) == opt_filter(*filter),
{
    match filter {
        Some(f) => Some(f.clone()),
        None => None,
    }
}

fn default_host() -> (host: String)
    ensures
        host@ == "127.0.0.1"@,
{
    String::from_str("127.0.0.1")
}

fn default_port() -> (port: u16)
    ensures
        port == 3000,
{
    3000
}

fn default_log_level() -> (level: String)
    ensures
        level@ == "info"@,
{
    String::from_str("info")
}

fn default_log_format() -> (format: String)
    ensures
        format@ == "pretty"@,
{
    String::from_str("pretty")
}

/// Whether a local endpoint is started at load time when its record does
/// not say.
pub fn default_auto_start() -> (auto_start: bool)
    ensures
        auto_start,
{
    true
}

fn default_request_timeout_secs() -> (secs: u64)
    ensures
        secs == 30,
{
    30
}

fn default_restart_delay_ms() -> (ms: u64)
    ensures
        ms == 500,
{
    500
}

impl Default for HttpConfig {
    fn default() -> (c: HttpConfig)
        ensures
            c.host@ == "127.0.0.1"@,
            c.port == 3000,
    {
        HttpConfig { host: default_host(), port: default_port() }
    }
}

impl Default for LoggingConfig {
    fn default() -> (c: LoggingConfig)
        ensures
            c.level@ == "info"@,
            c.format@ == "pretty"@,
    {
        LoggingConfig { level: default_log_level(), format: default_log_format() }
    }
}

impl Default for McpConfig {
    fn default() -> (c: McpConfig)
        ensures
            c.request_timeout_secs == 30,
            c.restart_delay_ms == 500,
    {
        McpConfig {
            request_timeout_secs: default_request_timeout_secs(),
            restart_delay_ms: default_restart_delay_ms(),
        }
    }
}

impl LocalServerConfig {
    /// Whether these settings launch what `kind` describes.
    pub open spec fn launches(&self, kind: EndpointKindConfig) -> bool {
        match kind {
            EndpointKindConfig::Local { command, args, env, auto_start } => {
                &&& self.command@ == command@
                &&& names_of(self.args@) == names_of(args@)
                &&& self.env@ == env@
            },
            EndpointKindConfig::Remote { url } => false,
        }
    }

    /// Whether two settings launch the same subprocess.
    pub open spec fn same_as(&self, other: LocalServerConfig) -> bool {
        &&& self.command@ == other.command@
        &&& names_of(self.args@) == names_of(other.args@)
        &&& self.env@ == other.env@
    }

    /// A copy that launches the same subprocess.
    pub fn duplicate(&self) -> (copy: LocalServerConfig)
        ensures
            copy.same_as(*self),
    {
        LocalServerConfig {
            command: self.command.clone(),
            args: clone_names(&self.args),
            env: self.env.clone(),
        }
    }
}

impl EndpointConfig {
    /// The routing path: the configured one, or the name.
    pub open spec fn route(&self) -> Seq<char> {
        match self.path {
            Some(p) => p@,
            None => self.name@,
        }
    }

    /// The routing path: the configured one, or the name.
    pub fn get_path(&self) -> (path: String)
        ensures
            path@ == self.route(),
    {
        match &self.path {
            Some(p) => p.clone(),
            None => self.name.clone(),
        }
    }

    /// The launch settings of a local endpoint; a configuration error for
    /// a remote one.
    pub fn to_local_settings(&self) -> (r: Result<LocalServerConfig, ProxyError>)
        ensures
            match r {
                Ok(settings) => self.endpoint_type is Local && settings.launches(
                    self.endpoint_type,
                ),
                Err(e) => self.endpoint_type is Remote && e.is_of(
                    ErrorKind::Config,
                    "Expected local endpoint configuration"@,
                ),
            },
    {
        match &self.endpoint_type {
            EndpointKindConfig::Local { command, args, env, .. } => Ok(
                LocalServerConfig {
                    command: command.clone(),
                    args: clone_names(args),
                    env: env.clone(),
                },
            ),
            _ => Err(ProxyError::config("Expected local endpoint configuration")),
        }
    }
}

/// The launch settings of a local server; a configuration error for a
/// remote one.
pub fn extract_local_config(config: &EndpointConfig) -> (r: Result<LocalServerConfig, ProxyError>)
    ensures
        match r {
            Ok(settings) => config.endpoint_type is Local && settings.launches(
                config.endpoint_type,
            ),
            Err(e) => config.endpoint_type is Remote && e.is_of(
                ErrorKind::Config,
                "Expected local server configuration"@,
            ),
        },
{
    match &config.endpoint_type {
        EndpointKindConfig::Local { command, args, env, .. } => Ok(
            LocalServerConfig {
                command: command.clone(),
                args: clone_names(args),
                env: env.clone(),
            },
        ),
        _ => Err(ProxyError::config("Expected local server configuration")),
    }
}

} // verus!
