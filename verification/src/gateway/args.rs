//! The arguments of the gateway on a function-as-a-service platform.

use vstd::prelude::*;
use vstd::string::*;

verus! {

/// The style of the log output.
#[derive(Clone, Copy, Debug, PartialEq, Eq, Structural)]
pub enum LogStyle {
    Text,
    Json,
}

/// The arguments.
#[derive(Debug)]
pub struct Args {
    /// The path of the configuration file.
    pub config: String,
    /// The path of the schema. The graph is static: no connection is made
    /// to a registry.
    pub schema: String,
    /// The reference of the graph.
    pub graph_ref: Option<String>,
    /// The level of the log.
    pub log_level: String,
    pub log_style: LogStyle,
}

/// What became of reading the configuration file.
#[derive(Debug)]
pub enum ConfigRead {
    /// The content of the file.
    Content(String),
    /// The file does not exist.
    NotFound,
    /// Reading failed for another reason, which the text gives.
    Failed(String),
}

/// Where the configuration comes from.
#[derive(Debug)]
pub enum ConfigSource {
    /// Parse this text.
    Parse(String),
    /// No file: the default configuration.
    Default,
}

/// How the graph is fetched.
#[derive(Debug)]
pub enum GraphLoader {
    FromSchemaFile { path: String },
}

/// The path of the configuration file unless one is given.
pub open spec fn default_config_path() -> Seq<char> {
    "./grafbase.toml"@
}

/// The path of the schema unless one is given.
pub open spec fn default_schema_path() -> Seq<char> {
    "./federated.graphql"@
}

/// The message for a configuration file that could not be read.
pub open spec fn config_error_message(reason: Seq<char>) -> Seq<char> {
    "error loading config file: "@ + reason
}

impl Args {
    /// The arguments when none are given.
    pub fn new() -> (args: Args)
        ensures
            args.config@ == default_config_path(),
            args.schema@ == default_schema_path(),
            args.graph_ref is None,
            args.log_level@ == "info"@,
            args.log_style == LogStyle::Text,
    {
        Args {
            config: String::from_str("./grafbase.toml"),
            schema: String::from_str("./federated.graphql"),
            graph_ref: None,
            log_level: String::from_str("info"),
            log_style: LogStyle::Text,
        }
    }

    /// How the graph is fetched: from the schema file.
    pub fn fetch_method(&self) -> (loader: GraphLoader)
        ensures
            loader matches GraphLoader::FromSchemaFile { path } && path@ == self.schema@,
    {
        GraphLoader::FromSchemaFile { path: self.schema.clone() }
    }

    /// Where the configuration comes from, given what became of reading
    /// the file: a file that does not exist means the default
    /// configuration, any other failure is an error.
    pub fn config(&self, read: ConfigRead) -> (source: Result<ConfigSource, String>)
        ensures
            match read {
                ConfigRead::Content(text) => source == Ok::<ConfigSource, String>(ConfigSource::Parse(text)),
                ConfigRead::NotFound => source matches Ok(ConfigSource::Default),
                ConfigRead::Failed(reason) => source matches Err(message) && message@ == config_error_message(
                    reason@,
                ),
            },
    {
        match read {
            ConfigRead::Content(text) => Ok(ConfigSource::Parse(text)),
            ConfigRead::NotFound => Ok(ConfigSource::Default),
            ConfigRead::Failed(reason) => {
                let mut message = String::from_str("error loading config file: ");
                message.append(reason.as_str());
                Err(message)
            },
        }
    }

    /// The path of the configuration file.
    pub fn config_path(&self) -> (path: Option<&str>)
        ensures
            path matches Some(p) && p@ == self.config@,
    {
        Some(self.config.as_str())
    }

    /// The configuration is not reloaded while the gateway runs.
    pub fn hot_reload(&self) -> (reload: bool)
        ensures
            !reload,
    {
        false
    }

    /// The style of the log output.
    pub fn log_style(&self) -> (style: LogStyle)
        ensures
            style == self.log_style,
    {
        self.log_style
    }

    /// The level of the log.
    pub fn log_level(&self) -> (level: &str)
        ensures
            level@ == self.log_level@,
    {
        self.log_level.as_str()
    }

    /// The reference of the graph.
    pub fn graph_ref(&self) -> (graph_ref: Option<&String>)
        ensures
            match (graph_ref, self.graph_ref) {
                (Some(a), Some(b)) => *a == b,
                (None, None) => true,
                _ => false,
            },
    {
        self.graph_ref.as_ref()
    }
}

} // verus!
