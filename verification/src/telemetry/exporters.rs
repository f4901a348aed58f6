//! How telemetry is exported.

use vstd::prelude::*;

verus! {

/// Export to the standard output.
#[derive(Debug, Clone, Copy, PartialEq, Eq, Structural)]
pub struct StdoutExporterConfig {
    pub enabled: bool,
    pub batch_export: Option<BatchExportConfig>,
    pub timeout_seconds: i64,
}

/// Export over OTLP.
#[derive(Debug)]
pub struct OtlpExporterConfig {
    pub enabled: bool,
    pub endpoint: Option<String>,
    pub batch_export: Option<BatchExportConfig>,
    pub timeout_seconds: i64,
}

/// Export in the extensions of the response.
#[derive(Debug, Clone, Copy, PartialEq, Eq, Structural)]
pub struct ResponseExtensionExporterConfig {
    pub enabled: bool,
    pub trace_id: bool,
    pub query_plan: bool,
}

/// The exporters for all signals.
#[derive(Debug)]
pub struct GlobalExporterConfig {
    pub stdout: Option<StdoutExporterConfig>,
    pub otlp: Option<OtlpExporterConfig>,
    pub response_extension: Option<ResponseExtensionExporterConfig>,
}

/// The exporters of one signal.
#[derive(Debug)]
pub struct OpenTelemetryExportersConfig {
    pub stdout: Option<StdoutExporterConfig>,
    pub otlp: Option<OtlpExporterConfig>,
}

/// How spans are exported in batches. The delay between two batches is in
/// whole seconds.
#[derive(Debug, Clone, Copy, PartialEq, Eq, Structural)]
pub struct BatchExportConfig {
    pub scheduled_delay_seconds: i64,
    pub max_queue_size: usize,
    pub max_export_batch_size: usize,
    pub max_concurrent_exports: usize,
}

/// The largest number of seconds that a duration with millisecond
/// resolution holds.
pub const MAX_DURATION_SECONDS: i64 = 9_223_372_036_854_775;

/// Whether `seconds` is a duration that can be held.
pub open spec fn is_duration_seconds(seconds: i64) -> bool {
    -MAX_DURATION_SECONDS <= seconds <= MAX_DURATION_SECONDS
}

/// The duration of `seconds` seconds, if it can be held.
pub fn duration_seconds(seconds: i64) -> (duration: Option<i64>)
    ensures
        duration == if is_duration_seconds(seconds) {
            Some(seconds)
        } else {
            None
        },
{
    if seconds >= -MAX_DURATION_SECONDS && seconds <= MAX_DURATION_SECONDS {
        Some(seconds)
    } else {
        None
    }
}

/// The timeout of an export unless the configuration sets one, in
/// seconds.
pub fn default_export_timeout() -> (seconds: i64)
    ensures
        seconds == 60,
{
    60
}

impl GlobalExporterConfig {
    /// No exporter.
    pub fn new() -> (config: Self)
        ensures
            config.stdout is None,
            config.otlp is None,
            config.response_extension is None,
    {
        GlobalExporterConfig { stdout: None, otlp: None, response_extension: None }
    }
}

impl OpenTelemetryExportersConfig {
    /// No exporter.
    pub fn new() -> (config: Self)
        ensures
            config.stdout is None,
            config.otlp is None,
    {
        OpenTelemetryExportersConfig { stdout: None, otlp: None }
    }
}

impl BatchExportConfig {
    pub fn default_scheduled_delay() -> (seconds: i64)
        ensures
            seconds == 5,
    {
        5
    }

    pub fn default_max_queue_size() -> (size: usize)
        ensures
            size == 2048,
    {
        2048
    }

    pub fn default_max_export_batch_size() -> (size: usize)
        ensures
            size == 512,
    {
        512
    }

    pub fn default_max_concurrent_exports() -> (exports: usize)
        ensures
            exports == 1,
    {
        1
    }
}

impl Default for BatchExportConfig {
    fn default() -> (config: Self)
        ensures
            config == (BatchExportConfig {
                scheduled_delay_seconds: 5,
                max_queue_size: 2048,
                max_export_batch_size: 512,
                max_concurrent_exports: 1,
            }),
    {
        BatchExportConfig {
            scheduled_delay_seconds: BatchExportConfig::default_scheduled_delay(),
            max_queue_size: BatchExportConfig::default_max_queue_size(),
            max_export_batch_size: BatchExportConfig::default_max_export_batch_size(),
            max_concurrent_exports: BatchExportConfig::default_max_concurrent_exports(),
        }
    }
}

} // verus!
