//! The layer that measures every request to the gateway.
//!
//! The layer decides under which attributes a request is measured and
//! whether it is measured at all; the measuring itself is the caller's.

use std::sync::Arc;
use vstd::prelude::*;
use crate::shared::share;
use crate::telemetry::metrics::{Client, OperationType};

verus! {

/// What a layer measures for: the address it listens on and the route it
/// serves, as far as they are known.
pub struct TelemetryLayerInner {
    pub listen_address: Option<String>,
    pub route: Option<String>,
}

/// The layer. It is shared by every service made from it.
pub struct TelemetryLayer(pub Arc<TelemetryLayerInner>);

/// The service `inner` behind the measurements of a layer.
pub struct TelemetryService<Service> {
    pub inner: Service,
    pub layer: Arc<TelemetryLayerInner>,
}

/// The attributes under which the duration of a request is recorded.
#[derive(Debug)]
pub struct RequestMetricsAttributes {
    pub status_code: u16,
    pub client: Option<Client>,
    pub cache_status: Option<String>,
    pub url_scheme: Option<String>,
    pub route: Option<String>,
    pub listen_address: Option<String>,
    pub version: Option<String>,
    pub method: Option<String>,
    pub has_graphql_errors: bool,
}

/// What is known of a request before it is served.
#[derive(Debug)]
pub struct RequestFacts {
    pub client: Option<Client>,
    pub url_scheme: Option<String>,
    pub path: String,
    pub version: String,
    pub method: String,
}

/// Whether any of `operations` is a subscription.
pub open spec fn has_subscription(operations: Seq<OperationType>) -> bool {
    exists|i: int| 0 <= i < operations.len() && operations[i] == OperationType::Subscription
}

impl TelemetryLayer {
    /// What the layer measures for.
    pub open spec fn view(&self) -> TelemetryLayerInner {
        *self.0
    }

    /// A layer for a gateway that listens on `listen_address`, for no route
    /// in particular.
    pub fn new_from_global_meter_provider(listen_address: Option<String>) -> (layer: Self)
        ensures
            layer@.listen_address == listen_address,
            layer@.route is None,
    {
        TelemetryLayer(Arc::new(TelemetryLayerInner { listen_address, route: None }))
    }

    /// The layer for the route `route`.
    pub fn with_route(self, route: String) -> (layer: Self)
        ensures
            layer@.route == Some(route),
            match (layer@.listen_address, self@.listen_address) {
                (Some(new), Some(old)) => new@ == old@,
                (None, None) => true,
                _ => false,
            },
    {
        let listen_address = match &self.0.listen_address {
            Some(address) => Some(address.clone()),
            None => None,
        };
        TelemetryLayer(Arc::new(TelemetryLayerInner { listen_address, route: Some(route) }))
    }

    /// The service that runs `inner` behind this layer's measurements.
    pub fn layer<Service>(&self, inner: Service) -> (service: TelemetryService<Service>)
        ensures
            service.inner == inner,
            *service.layer == self@,
    {
        TelemetryService { inner, layer: share(&self.0) }
    }
}

fn cloned(text: &Option<String>) -> (copy: Option<String>)
    ensures
        match (*text, copy) {
            (Some(a), Some(b)) => a@ == b@,
            (None, None) => true,
            _ => false,
        },
{
    match text {
        Some(text) => Some(text.clone()),
        None => None,
    }
}

impl<Service> TelemetryService<Service> {
    /// The attributes of a request, for a response with this status and
    /// cache status. The route is the layer's, or the path of the request
    /// if the layer has none. Whether the response has GraphQL errors is
    /// not known yet.
    pub fn attributes(&self, facts: RequestFacts, status_code: u16, cache_status: Option<String>) -> (attributes:
        RequestMetricsAttributes)
        ensures
            attributes.status_code == status_code,
            attributes.client == facts.client,
            attributes.cache_status == cache_status,
            attributes.url_scheme == facts.url_scheme,
            attributes.route matches Some(route) && route@ == match self.layer.route {
                Some(route) => route@,
                None => facts.path@,
            },
            match (attributes.listen_address, self.layer.listen_address) {
                (Some(a), Some(b)) => a@ == b@,
                (None, None) => true,
                _ => false,
            },
            attributes.version == Some(facts.version),
            attributes.method == Some(facts.method),
            !attributes.has_graphql_errors,
    {
        let route = match &self.layer.route {
            Some(route) => route.clone(),
            None => facts.path,
        };
        RequestMetricsAttributes {
            status_code,
            client: facts.client,
            cache_status,
            url_scheme: facts.url_scheme,
            route: Some(route),
            listen_address: cloned(&self.layer.listen_address),
            version: Some(facts.version),
            method: Some(facts.method),
            has_graphql_errors: false,
        }
    }

    /// The attributes of a request that the inner service failed on: an
    /// internal server error without cache status.
    pub fn failure_attributes(&self, facts: RequestFacts) -> (attributes: RequestMetricsAttributes)
        ensures
            attributes.status_code == 500,
            attributes.cache_status is None,
            !attributes.has_graphql_errors,
            attributes.client == facts.client,
            attributes.method == Some(facts.method),
    {
        self.attributes(facts, 500, None)
    }

    /// Decides whether the duration of a request is recorded once its
    /// operations are known: a request with a subscription is not measured,
    /// since its duration means something else. A request that is measured
    /// is marked as having GraphQL errors if any were counted.
    pub fn with_execution(
        &self,
        attributes: RequestMetricsAttributes,
        operations: &Vec<OperationType>,
        errors_count: u64,
    ) -> (recorded: Option<RequestMetricsAttributes>)
        ensures
            recorded is None == has_subscription(operations@),
            recorded matches Some(a) ==> {
                &&& a.has_graphql_errors == (errors_count > 0)
                &&& a.status_code == attributes.status_code
                &&& a.client == attributes.client
                &&& a.cache_status == attributes.cache_status
                &&& a.url_scheme == attributes.url_scheme
                &&& a.route == attributes.route
                &&& a.listen_address == attributes.listen_address
                &&& a.version == attributes.version
                &&& a.method == attributes.method
            },
    {
        let mut index: usize = 0;
        while index < operations.len()
            invariant
                index <= operations@.len(),
                forall|i: int| 0 <= i < index ==> operations@[i] != OperationType::Subscription,
            decreases operations@.len() - index,
        {
            if operations[index].is_subscription() {
                return None;
            }
            index += 1;
        }
        let mut attributes = attributes;
        attributes.has_graphql_errors = errors_count > 0;
        Some(attributes)
    }
}

} // verus!
