use extension_host::graph_updater::{AfterResponse, GraphUpdater, PollNote, UpdaterError};
use extension_host::telemetry::exporters::{
    default_export_timeout, duration_seconds, BatchExportConfig, GlobalExporterConfig, OpenTelemetryExportersConfig,
};
use extension_host::telemetry::metrics::{
    AttributeValue, Client, EngineMetrics, GraphqlErrorAttributes, GraphqlOperationAttributes,
    GraphqlRequestMetricsAttributes, GraphqlResponseStatus, Instrument, KeyValue, OperationName, OperationType,
    SubgraphCacheHitAttributes, SubgraphInFlightRequestAttributes, SubgraphRequestBodySizeAttributes,
    SubgraphRequestDurationAttributes, SubgraphRequestRetryAttributes, SubgraphResponseStatus,
};

fn pairs(attributes: &[KeyValue]) -> Vec<(String, String)> {
    attributes
        .iter()
        .map(|attribute| {
            let value = match &attribute.value {
                AttributeValue::Text(text) => text.clone(),
                AttributeValue::Flag(flag) => flag.to_string(),
                AttributeValue::Int(number) => number.to_string(),
            };
            (attribute.key.clone(), value)
        })
        .collect()
}

fn expect(pairs: &[(&str, &str)]) -> Vec<(String, String)> {
    pairs.iter().map(|(key, value)| (key.to_string(), value.to_string())).collect()
}

fn operation(ty: OperationType, name: OperationName) -> GraphqlOperationAttributes {
    GraphqlOperationAttributes { ty, name, sanitized_query: "query { me }".to_string() }
}

#[test]
fn operation_attributes_name_the_operation() {
    let metrics = EngineMetrics::build(None);
    let attributes =
        metrics.create_operation_key_values(operation(OperationType::Query, OperationName::Original("Me".to_string())));
    assert_eq!(
        pairs(&attributes),
        expect(&[("graphql.document", "query { me }"), ("graphql.operation.type", "query"), ("graphql.operation.name", "Me")])
    );
    let attributes = metrics
        .create_operation_key_values(operation(OperationType::Mutation, OperationName::Computed("me".to_string())));
    assert_eq!(pairs(&attributes)[1], ("graphql.operation.type".to_string(), "mutation".to_string()));
    assert_eq!(pairs(&attributes)[2], ("grafbase.operation.computed_name".to_string(), "me".to_string()));
    let attributes = metrics.create_operation_key_values(operation(OperationType::Query, OperationName::Unknown));
    assert_eq!(attributes.len(), 2);
}

#[test]
fn subscriptions_are_not_measured_by_duration() {
    let metrics = EngineMetrics::build(Some("v1".to_string()));
    let attributes = GraphqlRequestMetricsAttributes {
        operation: operation(OperationType::Subscription, OperationName::Unknown),
        status: GraphqlResponseStatus::Success,
        client: None,
    };
    assert!(metrics.record_query_or_mutation_duration(attributes, 10).is_none());
}

#[test]
fn query_duration_carries_version_status_and_client() {
    let metrics = EngineMetrics::build(Some("v1".to_string()));
    let attributes = GraphqlRequestMetricsAttributes {
        operation: operation(OperationType::Query, OperationName::Unknown),
        status: GraphqlResponseStatus::FieldError { count: 2, data_is_null: true },
        client: Some(Client { name: "web".to_string(), version: Some("1.2".to_string()) }),
    };
    let measurement = metrics.record_query_or_mutation_duration(attributes, 1234).unwrap();
    assert_eq!(measurement.instrument, Instrument::OperationLatency);
    assert_eq!(measurement.value, 1234);
    assert_eq!(
        pairs(&measurement.attributes),
        expect(&[
            ("graphql.document", "query { me }"),
            ("graphql.operation.type", "query"),
            ("grafbase.graph.version", "v1"),
            ("graphql.response.status", "FIELD_ERROR_NULL_DATA"),
            ("http.headers.x-grafbase-client-name", "web"),
            ("http.headers.x-grafbase-client-version", "1.2"),
        ])
    );
}

#[test]
fn statuses_have_names() {
    assert_eq!(GraphqlResponseStatus::Success.as_str(), "SUCCESS");
    assert_eq!(GraphqlResponseStatus::FieldError { count: 1, data_is_null: false }.as_str(), "FIELD_ERROR");
    assert_eq!(GraphqlResponseStatus::RequestError { count: 1 }.as_str(), "REQUEST_ERROR");
    assert_eq!(GraphqlResponseStatus::RefusedRequest.as_str(), "REFUSED_REQUEST");
    assert_eq!(SubgraphResponseStatus::HookError.as_str(), "HOOK_ERROR");
    assert_eq!(SubgraphResponseStatus::HttpError.as_str(), "HTTP_ERROR");
    assert_eq!(SubgraphResponseStatus::InvalidGraphqlResponseError.as_str(), "INVALID_RESPONSE");
    assert_eq!(
        SubgraphResponseStatus::WellFormedGraphqlResponse(GraphqlResponseStatus::Success).as_str(),
        "SUCCESS"
    );
    assert!(OperationType::Subscription.is_subscription());
    assert!(!OperationType::Query.is_subscription());
    assert_eq!(OperationType::Subscription.as_str(), "subscription");
}

#[test]
fn subgraph_measurements() {
    let metrics = EngineMetrics::build(None);
    let measurement = metrics.record_subgraph_request_duration(
        SubgraphRequestDurationAttributes {
            name: "accounts".to_string(),
            status: SubgraphResponseStatus::HttpError,
            http_status_code: Some(502),
        },
        15,
    );
    assert_eq!(measurement.instrument, Instrument::SubgraphLatency);
    assert_eq!(measurement.value, 15);
    assert_eq!(
        pairs(&measurement.attributes),
        expect(&[
            ("graphql.subgraph.name", "accounts"),
            ("graphql.subgraph.response.status", "HTTP_ERROR"),
            ("http.response.status_code", "502"),
        ])
    );
    let measurement = metrics
        .record_subgraph_retry(SubgraphRequestRetryAttributes { name: "accounts".to_string(), aborted: true });
    assert_eq!(measurement.value, 1);
    assert_eq!(
        pairs(&measurement.attributes),
        expect(&[("graphql.subgraph.name", "accounts"), ("graphql.subgraph.aborted", "true")])
    );
    let measurement =
        metrics.record_subgraph_request_size(SubgraphRequestBodySizeAttributes { name: "a".to_string() }, 2048);
    assert_eq!((measurement.instrument, measurement.value), (Instrument::SubgraphRequestBodySize, 2048));
    let up = metrics.increment_subgraph_inflight_requests(SubgraphInFlightRequestAttributes { name: "a".to_string() });
    let down = metrics.decrement_subgraph_inflight_requests(SubgraphInFlightRequestAttributes { name: "a".to_string() });
    assert_eq!((up.value, down.value), (1, -1));
    assert_eq!(up.instrument, Instrument::SubgraphRequestsInflight);
    let hit = metrics.record_subgraph_cache_hit(SubgraphCacheHitAttributes { name: "a".to_string() });
    assert_eq!(hit.instrument, Instrument::SubgraphCacheHits);
    assert_eq!(metrics.record_subgraph_cache_partial_hit("a".to_string()).instrument, Instrument::SubgraphCachePartialHits);
}

#[test]
fn plain_measurements_have_no_attributes() {
    let metrics = EngineMetrics::build(None);
    assert!(metrics.record_operation_cache_hit().attributes.is_empty());
    assert_eq!(metrics.record_operation_cache_miss().instrument, Instrument::OperationCacheMisses);
    assert_eq!(metrics.record_batch_size(3).value, 3);
    assert_eq!(metrics.record_request_body_size(99).instrument, Instrument::RequestBodySizes);
}

#[test]
fn preparation_measurements_say_whether_it_succeeded() {
    let metrics = EngineMetrics::build(None);
    let failed = metrics.record_failed_preparation_duration(None, 5);
    assert_eq!(pairs(&failed.attributes), expect(&[("graphql.operation.success", "false")]));
    let failed =
        metrics.record_failed_preparation_duration(Some(operation(OperationType::Query, OperationName::Unknown)), 5);
    assert_eq!(failed.attributes.len(), 3);
    assert_eq!(pairs(&failed.attributes)[2], ("graphql.operation.success".to_string(), "false".to_string()));
    let succeeded =
        metrics.record_successful_preparation_duration(operation(OperationType::Query, OperationName::Unknown), 6);
    assert_eq!(succeeded.instrument, Instrument::QueryPreparationLatency);
    assert_eq!(pairs(&succeeded.attributes)[2], ("graphql.operation.success".to_string(), "true".to_string()));
}

#[test]
fn graphql_errors_are_counted_by_code() {
    let metrics = EngineMetrics::build(None);
    let measurement = metrics.increment_graphql_errors(GraphqlErrorAttributes {
        code: "UNAUTHORIZED",
        operation_name: Some("Me".to_string()),
        client: Some(Client { name: "cli".to_string(), version: None }),
    });
    assert_eq!(measurement.instrument, Instrument::GraphqlErrors);
    assert_eq!(measurement.value, 1);
    assert_eq!(
        pairs(&measurement.attributes),
        expect(&[
            ("graphql.response.error.code", "UNAUTHORIZED"),
            ("graphql.operation.name", "Me"),
            ("http.headers.x-grafbase-client-name", "cli"),
        ])
    );
}

#[test]
fn instruments_have_names_and_units() {
    assert_eq!(Instrument::OperationLatency.name(), "graphql.operation.duration");
    assert_eq!(Instrument::SubgraphCachePartialHits.name(), "graphql.subgraph.request.cache.partial_hit");
    assert_eq!(Instrument::RequestBodySizes.name(), "http.server.request.body.size");
    assert!(Instrument::OperationLatency.is_in_milliseconds());
    assert!(Instrument::QueryPreparationLatency.is_in_milliseconds());
    assert!(!Instrument::BatchSizes.is_in_milliseconds());
}

#[test]
fn batch_export_defaults() {
    let config = BatchExportConfig::default();
    assert_eq!(config.scheduled_delay_seconds, 5);
    assert_eq!(config.max_queue_size, 2048);
    assert_eq!(config.max_export_batch_size, 512);
    assert_eq!(config.max_concurrent_exports, 1);
    assert_eq!(default_export_timeout(), 60);
    assert!(GlobalExporterConfig::new().otlp.is_none());
    assert!(OpenTelemetryExportersConfig::new().stdout.is_none());
}

#[test]
fn durations_are_bounded() {
    assert_eq!(duration_seconds(0), Some(0));
    assert_eq!(duration_seconds(-5), Some(-5));
    assert_eq!(duration_seconds(i64::MAX / 1000), Some(i64::MAX / 1000));
    assert_eq!(duration_seconds(i64::MAX / 1000 + 1), None);
    assert_eq!(duration_seconds(-(i64::MAX / 1000)), Some(-(i64::MAX / 1000)));
    assert_eq!(duration_seconds(i64::MIN), None);
}

#[test]
fn updater_builds_the_address_of_the_graph() {
    let updater = GraphUpdater::new("my-graph", None, None).unwrap();
    assert_eq!(updater.uplink_url, "https://gdn.grafbase.com/graphs/my-graph/current");
    assert_eq!(updater.graph_ref, "my-graph");
    assert_eq!(updater.if_none_match(), None);
    let updater = GraphUpdater::new("my-graph", Some("main"), Some("HTTP://localhost:4000")).unwrap();
    assert_eq!(updater.uplink_url, "http://localhost:4000/graphs/my-graph/main/current");
    match GraphUpdater::new("my-graph", None, Some("nowhere")) {
        Err(UpdaterError::InvalidUrl(address)) => assert_eq!(address, "nowhere/graphs/my-graph/current"),
        Ok(_) => panic!("the address is no URL"),
    }
}

#[test]
fn updater_decides_by_status() {
    let mut updater = GraphUpdater::new("g", None, None).unwrap();
    assert_eq!(updater.after_response(200), AfterResponse::ReadGraph);
    assert_eq!(updater.after_response(304), AfterResponse::Skip(PollNote::NoUpdates));
    assert_eq!(updater.after_response(404), AfterResponse::Skip(PollNote::NoSubgraphs));
    assert_eq!(updater.after_response(400), AfterResponse::Skip(PollNote::Error));
    assert_eq!(updater.after_response(503), AfterResponse::Skip(PollNote::Error));
    assert_eq!(updater.after_response(599), AfterResponse::Skip(PollNote::Error));
    assert_eq!(updater.after_response(302), AfterResponse::ReadGraph);
    assert_eq!(updater.after_failed_request(), AfterResponse::Skip(PollNote::Error));
    assert!(!updater.after_graph(7, false));
    assert_eq!(updater.if_none_match(), None);
    assert!(updater.after_graph(7, true));
    assert_eq!(updater.if_none_match(), Some(7));
    assert!(!updater.after_graph(8, false));
    assert_eq!(updater.if_none_match(), Some(7));
}
