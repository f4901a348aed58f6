//! The measurements of the engine: which instrument records which value
//! under which attributes.
//!
//! The functions here compute a measurement; recording it on a meter is
//! left to the caller.

use vstd::prelude::*;
use vstd::string::*;

verus! {

/// The kind of an operation.
#[derive(Clone, Copy, Debug, PartialEq, Eq, Structural)]
pub enum OperationType {
    Query,
    Mutation,
    Subscription,
}

/// The name of an operation: the one the client gave, one that was
/// computed from the document, or none.
#[derive(Debug)]
pub enum OperationName {
    Original(String),
    Computed(String),
    Unknown,
}

/// What is known of an operation.
#[derive(Debug)]
pub struct GraphqlOperationAttributes {
    pub ty: OperationType,
    pub name: OperationName,
    pub sanitized_query: String,
}

/// How a GraphQL response ended.
#[derive(Clone, Copy, Debug, PartialEq, Eq, Structural)]
pub enum GraphqlResponseStatus {
    Success,
    FieldError { count: u64, data_is_null: bool },
    RequestError { count: u64 },
    RefusedRequest,
}

/// How a request to a subgraph ended.
#[derive(Clone, Copy, Debug, PartialEq, Eq, Structural)]
pub enum SubgraphResponseStatus {
    HookError,
    HttpError,
    InvalidGraphqlResponseError,
    WellFormedGraphqlResponse(GraphqlResponseStatus),
}

/// The client of a request, as its headers name it.
#[derive(Debug)]
pub struct Client {
    pub name: String,
    pub version: Option<String>,
}

#[derive(Debug)]
pub struct GraphqlRequestMetricsAttributes {
    pub operation: GraphqlOperationAttributes,
    pub status: GraphqlResponseStatus,
    pub client: Option<Client>,
}

#[derive(Debug)]
pub struct SubgraphRequestDurationAttributes {
    pub name: String,
    pub status: SubgraphResponseStatus,
    pub http_status_code: Option<u16>,
}

#[derive(Debug)]
pub struct SubgraphRequestRetryAttributes {
    pub name: String,
    pub aborted: bool,
}

#[derive(Debug)]
pub struct SubgraphRequestBodySizeAttributes {
    pub name: String,
}

#[derive(Debug)]
pub struct SubgraphResponseBodySizeAttributes {
    pub name: String,
}

#[derive(Debug)]
pub struct SubgraphInFlightRequestAttributes {
    pub name: String,
}

#[derive(Debug)]
pub struct SubgraphCacheHitAttributes {
    pub name: String,
}

#[derive(Debug)]
pub struct SubgraphCacheMissAttributes {
    pub name: String,
}

#[derive(Debug)]
pub struct QueryPreparationAttributes {
    pub operation: Option<GraphqlOperationAttributes>,
    pub success: bool,
}

#[derive(Debug)]
pub struct GraphqlErrorAttributes {
    pub code: &'static str,
    pub operation_name: Option<String>,
    pub client: Option<Client>,
}

/// The value of an attribute.
#[derive(Debug)]
pub enum AttributeValue {
    Text(String),
    Flag(bool),
    Int(i64),
}

/// An attribute of a measurement.
#[derive(Debug)]
pub struct KeyValue {
    pub key: String,
    pub value: AttributeValue,
}

/// [`AttributeValue`] over sequences.
pub enum AttributeValueView {
    Text(Seq<char>),
    Flag(bool),
    Int(i64),
}

/// The instruments of the engine.
#[derive(Clone, Copy, Debug, PartialEq, Eq, Structural)]
pub enum Instrument {
    OperationLatency,
    SubgraphLatency,
    SubgraphRetries,
    SubgraphRequestBodySize,
    SubgraphResponseBodySize,
    SubgraphRequestsInflight,
    SubgraphCacheHits,
    SubgraphCachePartialHits,
    SubgraphCacheMisses,
    OperationCacheHits,
    OperationCacheMisses,
    QueryPreparationLatency,
    BatchSizes,
    RequestBodySizes,
    GraphqlErrors,
}

/// One measurement: the instrument, the value and the attributes.
#[derive(Debug)]
pub struct Measurement {
    pub instrument: Instrument,
    pub value: i64,
    pub attributes: Vec<KeyValue>,
}

/// The metrics of an engine for one version of the graph.
pub struct EngineMetrics {
    pub graph_version: Option<String>,
}

impl View for AttributeValue {
    type V = AttributeValueView;

    open spec fn view(&self) -> AttributeValueView {
        match *self {
            AttributeValue::Text(text) => AttributeValueView::Text(text@),
            AttributeValue::Flag(flag) => AttributeValueView::Flag(flag),
            AttributeValue::Int(number) => AttributeValueView::Int(number),
        }
    }
}

impl View for KeyValue {
    type V = (Seq<char>, AttributeValueView);

    open spec fn view(&self) -> (Seq<char>, AttributeValueView) {
        (self.key@, self.value@)
    }
}

/// The attributes as keys and values.
pub open spec fn views(attributes: Seq<KeyValue>) -> Seq<(Seq<char>, AttributeValueView)> {
    Seq::new(attributes.len(), |i: int| attributes[i]@)
}

/// A text attribute.
pub open spec fn text(key: Seq<char>, value: Seq<char>) -> (Seq<char>, AttributeValueView) {
    (key, AttributeValueView::Text(value))
}

/// A flag attribute.
pub open spec fn flag(key: Seq<char>, value: bool) -> (Seq<char>, AttributeValueView) {
    (key, AttributeValueView::Flag(value))
}

impl OperationType {
    pub open spec fn spec_str(self) -> Seq<char> {
        match self {
            OperationType::Query => "query"@,
            OperationType::Mutation => "mutation"@,
            OperationType::Subscription => "subscription"@,
        }
    }

    /// The kind as the attribute `graphql.operation.type` spells it.
    pub fn as_str(self) -> (text: &'static str)
        ensures
            text@ == self.spec_str(),
    {
        match self {
            OperationType::Query => "query",
            OperationType::Mutation => "mutation",
            OperationType::Subscription => "subscription",
        }
    }

    /// Whether the operation is a subscription.
    pub fn is_subscription(self) -> (yes: bool)
        ensures
            yes == (self == OperationType::Subscription),
    {
        match self {
            OperationType::Subscription => true,
            _ => false,
        }
    }
}

impl GraphqlResponseStatus {
    pub open spec fn spec_str(self) -> Seq<char> {
        match self {
            GraphqlResponseStatus::Success => "SUCCESS"@,
            GraphqlResponseStatus::FieldError { data_is_null, .. } => if data_is_null {
                "FIELD_ERROR_NULL_DATA"@
            } else {
                "FIELD_ERROR"@
            },
            GraphqlResponseStatus::RequestError { .. } => "REQUEST_ERROR"@,
            GraphqlResponseStatus::RefusedRequest => "REFUSED_REQUEST"@,
        }
    }

    /// The status as the attribute `graphql.response.status` spells it.
    pub fn as_str(self) -> (text: &'static str)
        ensures
            text@ == self.spec_str(),
    {
        match self {
            GraphqlResponseStatus::Success => "SUCCESS",
            GraphqlResponseStatus::FieldError { data_is_null, .. } => {
                if data_is_null {
                    "FIELD_ERROR_NULL_DATA"
                } else {
                    "FIELD_ERROR"
                }
            },
            GraphqlResponseStatus::RequestError { .. } => "REQUEST_ERROR",
            GraphqlResponseStatus::RefusedRequest => "REFUSED_REQUEST",
        }
    }
}

impl SubgraphResponseStatus {
    pub open spec fn spec_str(self) -> Seq<char> {
        match self {
            SubgraphResponseStatus::HookError => "HOOK_ERROR"@,
            SubgraphResponseStatus::HttpError => "HTTP_ERROR"@,
            SubgraphResponseStatus::InvalidGraphqlResponseError => "INVALID_RESPONSE"@,
            SubgraphResponseStatus::WellFormedGraphqlResponse(status) => status.spec_str(),
        }
    }

    /// The status as the attribute `graphql.subgraph.response.status`
    /// spells it.
    pub fn as_str(self) -> (text: &'static str)
        ensures
            text@ == self.spec_str(),
    {
        match self {
            SubgraphResponseStatus::HookError => "HOOK_ERROR",
            SubgraphResponseStatus::HttpError => "HTTP_ERROR",
            SubgraphResponseStatus::InvalidGraphqlResponseError => "INVALID_RESPONSE",
            SubgraphResponseStatus::WellFormedGraphqlResponse(status) => status.as_str(),
        }
    }
}

impl Instrument {
    pub open spec fn spec_name(self) -> Seq<char> {
        match self {
            Instrument::OperationLatency => "graphql.operation.duration"@,
            Instrument::SubgraphLatency => "graphql.subgraph.request.duration"@,
            Instrument::SubgraphRetries => "graphql.subgraph.request.retries"@,
            Instrument::SubgraphRequestBodySize => "graphql.subgraph.request.body.size"@,
            Instrument::SubgraphResponseBodySize => "graphql.subgraph.response.body.size"@,
            Instrument::SubgraphRequestsInflight => "graphql.subgraph.request.inflight"@,
            Instrument::SubgraphCacheHits => "graphql.subgraph.request.cache.hit"@,
            Instrument::SubgraphCachePartialHits => "graphql.subgraph.request.cache.partial_hit"@,
            Instrument::SubgraphCacheMisses => "graphql.subgraph.request.cache.miss"@,
            Instrument::OperationCacheHits => "graphql.operation.cache.hit"@,
            Instrument::OperationCacheMisses => "graphql.operation.cache.miss"@,
            Instrument::QueryPreparationLatency => "graphql.operation.prepare.duration"@,
            Instrument::BatchSizes => "graphql.operation.batch.size"@,
            Instrument::RequestBodySizes => "http.server.request.body.size"@,
            Instrument::GraphqlErrors => "graphql.operation.errors"@,
        }
    }

    /// The name under which the instrument is registered.
    pub fn name(self) -> (name: &'static str)
        ensures
            name@ == self.spec_name(),
    {
        match self {
            Instrument::OperationLatency => "graphql.operation.duration",
            Instrument::SubgraphLatency => "graphql.subgraph.request.duration",
            Instrument::SubgraphRetries => "graphql.subgraph.request.retries",
            Instrument::SubgraphRequestBodySize => "graphql.subgraph.request.body.size",
            Instrument::SubgraphResponseBodySize => "graphql.subgraph.response.body.size",
            Instrument::SubgraphRequestsInflight => "graphql.subgraph.request.inflight",
            Instrument::SubgraphCacheHits => "graphql.subgraph.request.cache.hit",
            Instrument::SubgraphCachePartialHits => "graphql.subgraph.request.cache.partial_hit",
            Instrument::SubgraphCacheMisses => "graphql.subgraph.request.cache.miss",
            Instrument::OperationCacheHits => "graphql.operation.cache.hit",
            Instrument::OperationCacheMisses => "graphql.operation.cache.miss",
            Instrument::QueryPreparationLatency => "graphql.operation.prepare.duration",
            Instrument::BatchSizes => "graphql.operation.batch.size",
            Instrument::RequestBodySizes => "http.server.request.body.size",
            Instrument::GraphqlErrors => "graphql.operation.errors",
        }
    }

    /// Whether the instrument measures milliseconds.
    pub fn is_in_milliseconds(self) -> (yes: bool)
        ensures
            yes == (self == Instrument::OperationLatency || self == Instrument::SubgraphLatency || self
                == Instrument::QueryPreparationLatency),
    {
        match self {
            Instrument::OperationLatency | Instrument::SubgraphLatency | Instrument::QueryPreparationLatency => true,
            _ => false,
        }
    }
}

/// The attributes that describe an operation: its document and kind, and
/// its name under the key that says where the name comes from.
pub open spec fn operation_attributes(operation: GraphqlOperationAttributes) -> Seq<(Seq<char>, AttributeValueView)> {
    seq![
        text("graphql.document"@, operation.sanitized_query@),
        text("graphql.operation.type"@, operation.ty.spec_str()),
    ] + match operation.name {
        OperationName::Original(name) => seq![text("graphql.operation.name"@, name@)],
        OperationName::Computed(name) => seq![text("grafbase.operation.computed_name"@, name@)],
        OperationName::Unknown => seq![],
    }
}

/// The attributes that describe a client: its name and, if known, its
/// version.
pub open spec fn client_attributes(client: Option<Client>) -> Seq<(Seq<char>, AttributeValueView)> {
    match client {
        Some(client) => seq![text("http.headers.x-grafbase-client-name"@, client.name@)] + match client.version {
            Some(version) => seq![text("http.headers.x-grafbase-client-version"@, version@)],
            None => seq![],
        },
        None => seq![],
    }
}

/// The attribute for the version of the graph, if it is known.
pub open spec fn version_attributes(version: Option<String>) -> Seq<(Seq<char>, AttributeValueView)> {
    match version {
        Some(version) => seq![text("grafbase.graph.version"@, version@)],
        None => seq![],
    }
}

/// The milliseconds as the value of a measurement. Values beyond the range
/// wrap around.
pub open spec fn millis_value(millis: u128) -> i64 {
    (millis as u64) as i64
}

fn text_attribute(key: &str, value: String) -> (attribute: KeyValue)
    ensures
        attribute@ == text(key@, value@),
{
    KeyValue { key: String::from_str(key), value: AttributeValue::Text(value) }
}

fn flag_attribute(key: &str, value: bool) -> (attribute: KeyValue)
    ensures
        attribute@ == flag(key@, value),
{
    KeyValue { key: String::from_str(key), value: AttributeValue::Flag(value) }
}

fn millis(latency_ms: u128) -> (value: i64)
    ensures
        value == millis_value(latency_ms),
{
    let truncated = #[verifier::truncate]
    (latency_ms as u64);
    #[verifier::truncate]
    (truncated as i64)
}

fn push_client(attributes: &mut Vec<KeyValue>, client: Option<Client>)
    ensures
        views(final(attributes)@) == views(old(attributes)@) + client_attributes(client),
{
    match client {
        Some(client) => {
            attributes.push(text_attribute("http.headers.x-grafbase-client-name", client.name));
            match client.version {
                Some(version) => {
                    attributes.push(text_attribute("http.headers.x-grafbase-client-version", version));
                },
                None => {},
            }
        },
        None => {},
    }
    assert(views(attributes@) =~= views(old(attributes)@) + client_attributes(client));
}

impl EngineMetrics {
    /// The metrics for this version of the graph.
    pub fn build(graph_version: Option<String>) -> (metrics: EngineMetrics)
        ensures
            metrics.graph_version == graph_version,
    {
        EngineMetrics { graph_version }
    }

    /// The attributes that describe an operation.
    pub fn create_operation_key_values(&self, operation: GraphqlOperationAttributes) -> (attributes: Vec<KeyValue>)
        ensures
            views(attributes@) == operation_attributes(operation),
    {
        let mut attributes: Vec<KeyValue> = Vec::new();
        attributes.push(text_attribute("graphql.document", operation.sanitized_query));
        attributes.push(text_attribute("graphql.operation.type", String::from_str(operation.ty.as_str())));
        match operation.name {
            OperationName::Original(name) => {
                attributes.push(text_attribute("graphql.operation.name", name));
            },
            OperationName::Computed(name) => {
                attributes.push(text_attribute("grafbase.operation.computed_name", name));
            },
            OperationName::Unknown => {},
        }
        assert(views(attributes@) =~= operation_attributes(operation));
        attributes
    }

    /// The duration of a query or mutation. A subscription is not
    /// measured.
    pub fn record_query_or_mutation_duration(&self, attributes: GraphqlRequestMetricsAttributes, latency_ms: u128) -> (recorded:
        Option<Measurement>)
        ensures
            recorded is None == (attributes.operation.ty == OperationType::Subscription),
            recorded matches Some(m) ==> {
                &&& m.instrument == Instrument::OperationLatency
                &&& m.value == millis_value(latency_ms)
                &&& views(m.attributes@) == operation_attributes(attributes.operation) + version_attributes(
                    self.graph_version,
                ) + seq![text("graphql.response.status"@, attributes.status.spec_str())] + client_attributes(
                    attributes.client,
                )
            },
    {
        let GraphqlRequestMetricsAttributes { operation, status, client } = attributes;
        if operation.ty.is_subscription() {
            return None;
        }
        let mut list = self.create_operation_key_values(operation);
        match &self.graph_version {
            Some(version) => {
                list.push(text_attribute("grafbase.graph.version", version.clone()));
            },
            None => {},
        }
        list.push(text_attribute("graphql.response.status", String::from_str(status.as_str())));
        let ghost before = views(list@);
        assert(before =~= operation_attributes(operation) + version_attributes(self.graph_version) + seq![
            text("graphql.response.status"@, status.spec_str()),
        ]);
        push_client(&mut list, client);
        Some(Measurement { instrument: Instrument::OperationLatency, value: millis(latency_ms), attributes: list })
    }

    /// The duration of a request to a subgraph.
    pub fn record_subgraph_request_duration(&self, attributes: SubgraphRequestDurationAttributes, duration_ms: u128) -> (recorded:
        Measurement)
        ensures
            recorded.instrument == Instrument::SubgraphLatency,
            recorded.value == millis_value(duration_ms),
            views(recorded.attributes@) == seq![
                text("graphql.subgraph.name"@, attributes.name@),
                text("graphql.subgraph.response.status"@, attributes.status.spec_str()),
            ] + match attributes.http_status_code {
                Some(code) => seq![("http.response.status_code"@, AttributeValueView::Int(code as i64))],
                None => seq![],
            },
    {
        let SubgraphRequestDurationAttributes { name, status, http_status_code } = attributes;
        let mut list: Vec<KeyValue> = Vec::new();
        list.push(text_attribute("graphql.subgraph.name", name));
        list.push(text_attribute("graphql.subgraph.response.status", String::from_str(status.as_str())));
        match http_status_code {
            Some(code) => {
                list.push(
                    KeyValue {
                        key: String::from_str("http.response.status_code"),
                        value: AttributeValue::Int(code as i64),
                    },
                );
            },
            None => {},
        }
        assert(views(list@) =~= seq![
            text("graphql.subgraph.name"@, name@),
            text("graphql.subgraph.response.status"@, status.spec_str()),
        ] + match http_status_code {
            Some(code) => seq![("http.response.status_code"@, AttributeValueView::Int(code as i64))],
            None => seq![],
        });
        Measurement { instrument: Instrument::SubgraphLatency, value: millis(duration_ms), attributes: list }
    }

    /// One retry of a request to a subgraph.
    pub fn record_subgraph_retry(&self, attributes: SubgraphRequestRetryAttributes) -> (recorded: Measurement)
        ensures
            recorded.instrument == Instrument::SubgraphRetries,
            recorded.value == 1,
            views(recorded.attributes@) == seq![
                text("graphql.subgraph.name"@, attributes.name@),
                flag("graphql.subgraph.aborted"@, attributes.aborted),
            ],
    {
        let mut list: Vec<KeyValue> = Vec::new();
        list.push(text_attribute("graphql.subgraph.name", attributes.name));
        list.push(flag_attribute("graphql.subgraph.aborted", attributes.aborted));
        assert(views(list@) =~= seq![
            text("graphql.subgraph.name"@, attributes.name@),
            flag("graphql.subgraph.aborted"@, attributes.aborted),
        ]);
        Measurement { instrument: Instrument::SubgraphRetries, value: 1, attributes: list }
    }

    /// A measurement on `instrument` of `value` for the subgraph `name`.
    pub fn record_for_subgraph(&self, instrument: Instrument, value: i64, name: String) -> (recorded: Measurement)
        ensures
            recorded.instrument == instrument,
            recorded.value == value,
            views(recorded.attributes@) == seq![text("graphql.subgraph.name"@, name@)],
    {
        let mut list: Vec<KeyValue> = Vec::new();
        list.push(text_attribute("graphql.subgraph.name", name));
        assert(views(list@) =~= seq![text("graphql.subgraph.name"@, name@)]);
        Measurement { instrument, value, attributes: list }
    }

    /// The size of the body of a request to a subgraph.
    pub fn record_subgraph_request_size(&self, attributes: SubgraphRequestBodySizeAttributes, size: usize) -> (recorded:
        Measurement)
        ensures
            recorded.instrument == Instrument::SubgraphRequestBodySize,
            recorded.value == (size as u64) as i64,
            views(recorded.attributes@) == seq![text("graphql.subgraph.name"@, attributes.name@)],
    {
        self.record_for_subgraph(Instrument::SubgraphRequestBodySize, size_value(size), attributes.name)
    }

    /// The size of the body of a response of a subgraph.
    pub fn record_subgraph_response_size(&self, attributes: SubgraphResponseBodySizeAttributes, size: usize) -> (recorded:
        Measurement)
        ensures
            recorded.instrument == Instrument::SubgraphResponseBodySize,
            recorded.value == (size as u64) as i64,
            views(recorded.attributes@) == seq![text("graphql.subgraph.name"@, attributes.name@)],
    {
        self.record_for_subgraph(Instrument::SubgraphResponseBodySize, size_value(size), attributes.name)
    }

    /// One more request to a subgraph is in flight.
    pub fn increment_subgraph_inflight_requests(&self, attributes: SubgraphInFlightRequestAttributes) -> (recorded:
        Measurement)
        ensures
            recorded.instrument == Instrument::SubgraphRequestsInflight,
            recorded.value == 1,
            views(recorded.attributes@) == seq![text("graphql.subgraph.name"@, attributes.name@)],
    {
        self.record_for_subgraph(Instrument::SubgraphRequestsInflight, 1, attributes.name)
    }

    /// One request to a subgraph is no longer in flight.
    pub fn decrement_subgraph_inflight_requests(&self, attributes: SubgraphInFlightRequestAttributes) -> (recorded:
        Measurement)
        ensures
            recorded.instrument == Instrument::SubgraphRequestsInflight,
            recorded.value == -1,
            views(recorded.attributes@) == seq![text("graphql.subgraph.name"@, attributes.name@)],
    {
        self.record_for_subgraph(Instrument::SubgraphRequestsInflight, -1, attributes.name)
    }

    /// A request to a subgraph was answered from the cache.
    pub fn record_subgraph_cache_hit(&self, attributes: SubgraphCacheHitAttributes) -> (recorded: Measurement)
        ensures
            recorded.instrument == Instrument::SubgraphCacheHits,
            recorded.value == 1,
            views(recorded.attributes@) == seq![text("graphql.subgraph.name"@, attributes.name@)],
    {
        self.record_for_subgraph(Instrument::SubgraphCacheHits, 1, attributes.name)
    }

    /// A request to a subgraph was answered in part from the cache.
    pub fn record_subgraph_cache_partial_hit(&self, subgraph_name: String) -> (recorded: Measurement)
        ensures
            recorded.instrument == Instrument::SubgraphCachePartialHits,
            recorded.value == 1,
            views(recorded.attributes@) == seq![text("graphql.subgraph.name"@, subgraph_name@)],
    {
        self.record_for_subgraph(Instrument::SubgraphCachePartialHits, 1, subgraph_name)
    }

    /// A request to a subgraph was not in the cache.
    pub fn record_subgraph_cache_miss(&self, attributes: SubgraphCacheMissAttributes) -> (recorded: Measurement)
        ensures
            recorded.instrument == Instrument::SubgraphCacheMisses,
            recorded.value == 1,
            views(recorded.attributes@) == seq![text("graphql.subgraph.name"@, attributes.name@)],
    {
        self.record_for_subgraph(Instrument::SubgraphCacheMisses, 1, attributes.name)
    }

    /// A measurement without attributes.
    pub fn record_plain(&self, instrument: Instrument, value: i64) -> (recorded: Measurement)
        ensures
            recorded.instrument == instrument,
            recorded.value == value,
            recorded.attributes@.len() == 0,
    {
        Measurement { instrument, value, attributes: Vec::new() }
    }

    /// An operation was found in the cache.
    pub fn record_operation_cache_hit(&self) -> (recorded: Measurement)
        ensures
            recorded.instrument == Instrument::OperationCacheHits,
            recorded.value == 1,
            recorded.attributes@.len() == 0,
    {
        self.record_plain(Instrument::OperationCacheHits, 1)
    }

    /// An operation was not in the cache.
    pub fn record_operation_cache_miss(&self) -> (recorded: Measurement)
        ensures
            recorded.instrument == Instrument::OperationCacheMisses,
            recorded.value == 1,
            recorded.attributes@.len() == 0,
    {
        self.record_plain(Instrument::OperationCacheMisses, 1)
    }

    /// The duration of a preparation that failed.
    pub fn record_failed_preparation_duration(&self, operation: Option<GraphqlOperationAttributes>, duration_ms: u128) -> (recorded:
        Measurement)
        ensures
            recorded.instrument == Instrument::QueryPreparationLatency,
            recorded.value == millis_value(duration_ms),
            views(recorded.attributes@) == match operation {
                Some(operation) => operation_attributes(operation),
                None => seq![],
            } + seq![flag("graphql.operation.success"@, false)],
    {
        let mut list = match operation {
            Some(operation) => self.create_operation_key_values(operation),
            None => Vec::new(),
        };
        let ghost before = views(list@);
        list.push(flag_attribute("graphql.operation.success", false));
        assert(views(list@) =~= before + seq![flag("graphql.operation.success"@, false)]);
        assert(operation is None ==> before =~= seq![]);
        Measurement { instrument: Instrument::QueryPreparationLatency, value: millis(duration_ms), attributes: list }
    }

    /// The duration of a preparation that succeeded.
    pub fn record_successful_preparation_duration(&self, operation: GraphqlOperationAttributes, duration_ms: u128) -> (recorded:
        Measurement)
        ensures
            recorded.instrument == Instrument::QueryPreparationLatency,
            recorded.value == millis_value(duration_ms),
            views(recorded.attributes@) == operation_attributes(operation) + seq![
                flag("graphql.operation.success"@, true),
            ],
    {
        let mut list = self.create_operation_key_values(operation);
        let ghost before = views(list@);
        list.push(flag_attribute("graphql.operation.success", true));
        assert(views(list@) =~= before + seq![flag("graphql.operation.success"@, true)]);
        Measurement { instrument: Instrument::QueryPreparationLatency, value: millis(duration_ms), attributes: list }
    }

    /// The number of operations of a batch.
    pub fn record_batch_size(&self, size: usize) -> (recorded: Measurement)
        ensures
            recorded.instrument == Instrument::BatchSizes,
            recorded.value == (size as u64) as i64,
            recorded.attributes@.len() == 0,
    {
        self.record_plain(Instrument::BatchSizes, size_value(size))
    }

    /// The size of the body of a request.
    pub fn record_request_body_size(&self, size: usize) -> (recorded: Measurement)
        ensures
            recorded.instrument == Instrument::RequestBodySizes,
            recorded.value == (size as u64) as i64,
            recorded.attributes@.len() == 0,
    {
        self.record_plain(Instrument::RequestBodySizes, size_value(size))
    }

    /// One more GraphQL error, by its code, the name of the operation and
    /// the client.
    pub fn increment_graphql_errors(&self, attributes: GraphqlErrorAttributes) -> (recorded: Measurement)
        ensures
            recorded.instrument == Instrument::GraphqlErrors,
            recorded.value == 1,
            views(recorded.attributes@) == seq![text("graphql.response.error.code"@, attributes.code@)]
                + match attributes.operation_name {
                Some(name) => seq![text("graphql.operation.name"@, name@)],
                None => seq![],
            } + client_attributes(attributes.client),
    {
        let GraphqlErrorAttributes { code, operation_name, client } = attributes;
        let mut list: Vec<KeyValue> = Vec::new();
        list.push(text_attribute("graphql.response.error.code", String::from_str(code)));
        match operation_name {
            Some(name) => {
                list.push(text_attribute("graphql.operation.name", name));
            },
            None => {},
        }
        assert(views(list@) =~= seq![text("graphql.response.error.code"@, code@)] + match operation_name {
            Some(name) => seq![text("graphql.operation.name"@, name@)],
            None => seq![],
        });
        push_client(&mut list, client);
        Measurement { instrument: Instrument::GraphqlErrors, value: 1, attributes: list }
    }
}

fn size_value(size: usize) -> (value: i64)
    ensures
        value == (size as u64) as i64,
{
    #[verifier::truncate]
    ((size as u64) as i64)
}

} // verus!
