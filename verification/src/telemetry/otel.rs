//! Which parts of the telemetry of OpenTelemetry are set up.

use vstd::prelude::*;
use vstd::string::*;

verus! {

/// What of the telemetry configuration decides the setup.
pub struct TelemetrySetup {
    pub service_name: String,
    pub resource_attributes: Vec<(String, String)>,
    pub tracing_exporters_enabled: bool,
    pub logs_exporters_enabled: bool,
}

/// The parts that are set up.
#[derive(Clone, Copy, Debug, PartialEq, Eq, Structural)]
pub struct OtelTelemetry {
    pub tracer: bool,
    pub meter_provider: bool,
    pub logger: bool,
}

/// A setup that collects and exports nothing. It holds the place of a
/// real one until the configuration is known.
pub fn new_noop() -> (telemetry: OtelTelemetry)
    ensures
        telemetry == (OtelTelemetry { tracer: false, meter_provider: false, logger: false }),
{
    OtelTelemetry { tracer: false, meter_provider: false, logger: false }
}

/// The setup for a configuration. Metrics are always on; traces where an
/// exporter for traces is enabled; logs where a provider could be built
/// and an exporter for logs is enabled.
pub fn build(config: &TelemetrySetup, logs_provider_built: bool) -> (telemetry: OtelTelemetry)
    ensures
        telemetry == (OtelTelemetry {
            tracer: config.tracing_exporters_enabled,
            meter_provider: true,
            logger: logs_provider_built && config.logs_exporters_enabled,
        }),
{
    OtelTelemetry {
        tracer: config.tracing_exporters_enabled,
        meter_provider: true,
        logger: logs_provider_built && config.logs_exporters_enabled,
    }
}

/// The attributes of the resource: those of the configuration, then the
/// name of the service under `service.name`.
pub fn resource_attributes(config: &TelemetrySetup) -> (attributes: Vec<(String, String)>)
    ensures
        attributes@.len() == config.resource_attributes@.len() + 1,
        forall|i: int|
            0 <= i < config.resource_attributes@.len() ==> (#[trigger] attributes@[i]).0@
                == config.resource_attributes@[i].0@ && attributes@[i].1@ == config.resource_attributes@[i].1@,
        attributes@.last().0@ == "service.name"@,
        attributes@.last().1@ == config.service_name@,
{
    let mut attributes: Vec<(String, String)> = Vec::new();
    let mut index: usize = 0;
    while index < config.resource_attributes.len()
        invariant
            index <= config.resource_attributes@.len(),
            attributes@.len() == index,
            forall|i: int|
                0 <= i < index ==> (#[trigger] attributes@[i]).0@ == config.resource_attributes@[i].0@
                    && attributes@[i].1@ == config.resource_attributes@[i].1@,
        decreases config.resource_attributes@.len() - index,
    {
        let entry = &config.resource_attributes[index];
        attributes.push((entry.0.clone(), entry.1.clone()));
        index += 1;
    }
    attributes.push((String::from_str("service.name"), config.service_name.clone()));
    attributes
}

} // verus!
