//! Service-level types shared across the operator's binaries: logging and
//! output settings, the environment tag with its short aliases, the
//! command-line shape, and the small reflection traits the data layer uses.
//! Each enum's wire name is pinned by its conversion functions.

use vstd::prelude::*;

use crate::strutil::eq_exact;

verus! {

/// The logging verbosity of a service.
#[derive(Debug, Clone, Copy, PartialEq, Eq, Structural)]
pub enum LogLevel {
    Trace,
    Debug,
    Info,
    Warn,
    Error,
}

/// The wire name of a log level.
pub open spec fn log_level_name(l: LogLevel) -> Seq<char> {
    match l {
        LogLevel::Trace => "trace"@,
        LogLevel::Debug => "debug"@,
        LogLevel::Info => "info"@,
        LogLevel::Warn => "warn"@,
        LogLevel::Error => "error"@,
    }
}

impl LogLevel {
    /// The wire name of this level.
    pub fn as_str(&self) -> (r: &'static str)
        ensures
            r@ == log_level_name(*self),
    {
        match self {
            LogLevel::Trace => "trace",
            LogLevel::Debug => "debug",
            LogLevel::Info => "info",
            LogLevel::Warn => "warn",
            LogLevel::Error => "error",
        }
    }

    /// Parses a wire name back to its level: `Some` exactly on the five
    /// names.
    pub fn from_name(s: &str) -> (r: Option<LogLevel>)
        ensures
            match r {
                Some(l) => log_level_name(l) == s@,
                None => forall|l: LogLevel| log_level_name(l) != s@,
            },
    {
        if eq_exact(s, "trace") {
            Some(LogLevel::Trace)
        } else if eq_exact(s, "debug") {
            Some(LogLevel::Debug)
        } else if eq_exact(s, "info") {
            Some(LogLevel::Info)
        } else if eq_exact(s, "warn") {
            Some(LogLevel::Warn)
        } else if eq_exact(s, "error") {
            Some(LogLevel::Error)
        } else {
            proof {
                assert forall|l: LogLevel| log_level_name(l) != s@ by {}
            }
            None
        }
    }
}

/// The rendering of structured output.
#[derive(Debug, Clone, Copy, PartialEq, Eq, Structural)]
pub enum OutputFormat {
    Json,
    Yaml,
    Toml,
    PrettyJson,
    CommaSeparated,
}

/// The wire name of an output format; comma-separated output is named
/// `csv`.
pub open spec fn output_format_name(f: OutputFormat) -> Seq<char> {
    match f {
        OutputFormat::Json => "json"@,
        OutputFormat::Yaml => "yaml"@,
        OutputFormat::Toml => "toml"@,
        OutputFormat::PrettyJson => "prettyjson"@,
        OutputFormat::CommaSeparated => "csv"@,
    }
}

impl OutputFormat {
    /// The wire name of this format.
    pub fn as_str(&self) -> (r: &'static str)
        ensures
            r@ == output_format_name(*self),
    {
        match self {
            OutputFormat::Json => "json",
            OutputFormat::Yaml => "yaml",
            OutputFormat::Toml => "toml",
            OutputFormat::PrettyJson => "prettyjson",
            OutputFormat::CommaSeparated => "csv",
        }
    }

    /// Parses a wire name back to its format.
    pub fn from_name(s: &str) -> (r: Option<OutputFormat>)
        ensures
            match r {
                Some(f) => output_format_name(f) == s@,
                None => forall|f: OutputFormat| output_format_name(f) != s@,
            },
    {
        if eq_exact(s, "json") {
            Some(OutputFormat::Json)
        } else if eq_exact(s, "yaml") {
            Some(OutputFormat::Yaml)
        } else if eq_exact(s, "toml") {
            Some(OutputFormat::Toml)
        } else if eq_exact(s, "prettyjson") {
            Some(OutputFormat::PrettyJson)
        } else if eq_exact(s, "csv") {
            Some(OutputFormat::CommaSeparated)
        } else {
            proof {
                assert forall|f: OutputFormat| output_format_name(f) != s@ by {}
            }
            None
        }
    }
}

/// The deployment environment tag.
#[derive(Debug, Clone, Copy, PartialEq, Eq, Structural)]
pub enum Environment {
    Development,
    Staging,
    Production,
    DevelopmentShort,
    ProductionShort,
}

/// The wire name of an environment tag, with its historical quirks:
/// `Staging` is written `local`, `Production` is written `dev`,
/// `DevelopmentShort` is written `prod`, and `ProductionShort` is written
/// `stage`.
pub open spec fn environment_name(e: Environment) -> Seq<char> {
    match e {
        Environment::Development => "development"@,
        Environment::Staging => "local"@,
        Environment::Production => "dev"@,
        Environment::DevelopmentShort => "prod"@,
        Environment::ProductionShort => "stage"@,
    }
}

impl Environment {
    /// The wire name of this tag.
    pub fn as_str(&self) -> (r: &'static str)
        ensures
            r@ == environment_name(*self),
    {
        match self {
            Environment::Development => "development",
            Environment::Staging => "local",
            Environment::Production => "dev",
            Environment::DevelopmentShort => "prod",
            Environment::ProductionShort => "stage",
        }
    }

    /// Parses a wire name back to its tag.
    pub fn from_name(s: &str) -> (r: Option<Environment>)
        ensures
            match r {
                Some(e) => environment_name(e) == s@,
                None => forall|e: Environment| environment_name(e) != s@,
            },
    {
        if eq_exact(s, "development") {
            Some(Environment::Development)
        } else if eq_exact(s, "local") {
            Some(Environment::Staging)
        } else if eq_exact(s, "dev") {
            Some(Environment::Production)
        } else if eq_exact(s, "prod") {
            Some(Environment::DevelopmentShort)
        } else if eq_exact(s, "stage") {
            Some(Environment::ProductionShort)
        } else {
            proof {
                assert forall|e: Environment| environment_name(e) != s@ by {}
            }
            None
        }
    }
}

/// The parsed command line of a service.
#[derive(Debug, Clone)]
pub struct Cli {
    /// The logging verbosity.
    pub log_level: LogLevel,
    /// The output rendering.
    pub output_format: OutputFormat,
    /// The deployment environment.
    pub environment: Environment,
}

/// A type that can describe its own shape: its name, its field names, and
/// the rendered values of one instance.
pub trait Reflective {
    /// The type's name.
    fn name() -> &'static str;

    /// The field names, in declaration order.
    fn field_names() -> Vec<&'static str>;

    /// The rendered field values of this instance, in declaration order.
    fn field_values(&self) -> Vec<String>;
}

/// A resource stored in a database: where it lives and how it is tagged.
pub trait DbResource {
    /// The connection string of the store.
    fn url() -> &'static str;

    /// The collection the resource lives in.
    fn collection() -> &'static str;

    /// The tag recorded on each document.
    fn tag() -> &'static str;
}

} // verus!
