use extension_host::graphql_error::{ErrorCode, ExtensionValue};
use extension_host::host::error::{ErrorResponse, GuestError, GuestErrorResponse, InternalError};
use extension_host::host::error::Error;
use extension_host::host::hooks::{
    into_graphql_error, push_headers_and_context, take_headers, ExtensionInstanceSince0_21_0, HookResource,
    HookReturn, HttpMethod, HttpRequestParts, OnRequestOutput,
};
use extension_host::host::instance::ExtensionInstance;
use extension_host::host::lease::{LeaseError, ResourceTable};
use extension_host::host::pool::InstancePool;

type Headers = Vec<(String, String)>;
type Table = ResourceTable<HookResource<Headers, &'static str>>;
type Instance = ExtensionInstanceSince0_21_0<Headers, &'static str>;

fn headers(value: &str) -> Headers {
    vec![("x-test".to_string(), value.to_string())]
}

fn is_clean(table: &Table) -> bool {
    (0..16).all(|handle| !table.contains(handle))
}

#[test]
fn methods_have_names() {
    let methods = [
        (HttpMethod::Get, "GET"),
        (HttpMethod::Post, "POST"),
        (HttpMethod::Put, "PUT"),
        (HttpMethod::Delete, "DELETE"),
        (HttpMethod::Patch, "PATCH"),
        (HttpMethod::Head, "HEAD"),
        (HttpMethod::Options, "OPTIONS"),
        (HttpMethod::Connect, "CONNECT"),
        (HttpMethod::Trace, "TRACE"),
    ];
    for (method, name) in methods {
        assert_eq!(method.name(), name);
        assert_eq!(HttpMethod::from_name(name), Some(method));
    }
    assert_eq!(HttpMethod::from_name("get"), None);
    assert_eq!(HttpMethod::from_name("PROPFIND"), None);
    assert_eq!(HttpMethod::from_name(""), None);
}

#[test]
fn on_request_leases_headers_and_takes_them_back() {
    let mut instance = Instance::new();
    let call = instance.on_request_begin("POST", "/graphql".to_string(), headers("in"), "host").unwrap();
    assert_eq!(call.parts.method, HttpMethod::Post);
    assert_eq!(call.parts.url, "/graphql");
    assert_ne!(call.parts.headers, call.context);
    assert!(instance.resources().contains(call.parts.headers));
    assert!(instance.resources().contains(call.context));

    let output =
        OnRequestOutput { headers: call.parts.headers, contract_key: Some("key".to_string()), context: vec![1] };
    let request = instance.on_request_complete(HookReturn::Returned(Ok(output))).unwrap().unwrap();
    assert_eq!(request.headers, headers("in"));
    assert_eq!(request.contract_key.as_deref(), Some("key"));
    assert!(request.context.hooks_context.is_empty());
    assert!(!instance.resources().contains(call.parts.headers));
    assert!(instance.resources().contains(call.context));
}

#[test]
fn on_request_refuses_a_method_it_cannot_express() {
    let mut instance = Instance::new();
    let call = instance.on_request_begin("PROPFIND", "/".to_string(), headers("in"), "host");
    assert_eq!(call.err(), Some(InternalError::UnsupportedMethod));
    assert!(is_clean(instance.resources()));
}

#[test]
fn on_request_passes_the_guests_error_response_on() {
    let mut instance = Instance::new();
    let call = instance.on_request_begin("GET", "/".to_string(), headers("in"), "host").unwrap();
    let response = GuestErrorResponse {
        status_code: 403,
        errors: vec![GuestError { message: "forbidden".to_string(), extensions: Vec::new() }],
    };
    match instance.on_request_complete(HookReturn::Returned(Err(response))) {
        Ok(Err(ErrorResponse::Guest(response))) => {
            assert_eq!(response.status_code, 403);
            assert_eq!(response.errors[0].message, "forbidden");
        }
        _ => panic!("the guest's response must be passed on"),
    }
    assert!(instance.resources().contains(call.parts.headers));
}

#[test]
fn a_corrupted_output_handle_is_an_internal_error() {
    let mut instance = Instance::new();
    let call = instance.on_request_begin("GET", "/".to_string(), headers("in"), "host").unwrap();
    let output = OnRequestOutput { headers: 99, contract_key: None, context: Vec::new() };
    assert_eq!(
        instance.on_request_complete(HookReturn::Returned(Ok(output))).err(),
        Some(InternalError::Lease(LeaseError::NotPresent))
    );
    let output = OnRequestOutput { headers: call.context, contract_key: None, context: Vec::new() };
    assert_eq!(instance.on_request_complete(HookReturn::Returned(Ok(output))).err(), Some(InternalError::WrongResourceKind));
    assert!(instance.resources().contains(call.context));
    assert!(matches!(
        instance.resources().get(call.parts.headers),
        Some(HookResource::Headers(found)) if found == &headers("in")
    ));
    assert!(instance.is_poisoned());
}

#[test]
fn on_response_round_trip() {
    let mut instance = Instance::new();
    let call = instance.on_response_begin(200, headers("out"), "queue", "host", "request").unwrap();
    assert_eq!(call.status, 200);
    let mut handles = vec![call.headers, call.queue, call.host_context, call.context];
    handles.sort();
    handles.dedup();
    assert_eq!(handles.len(), 4);
    assert_eq!(instance.on_response_complete(HookReturn::Returned(Ok(call.headers))), Ok(Ok(headers("out"))));
    assert!(!instance.resources().contains(call.headers));
    let mut instance = Instance::new();
    let _ = instance.on_response_begin(500, headers("out"), "queue", "host", "request").unwrap();
    assert_eq!(instance.on_response_complete(HookReturn::Returned(Err("boom".to_string()))), Ok(Err("boom".to_string())));
}

#[test]
fn subgraph_request_url_is_normalized() {
    let mut instance = Instance::new();
    let call = instance.on_graphql_subgraph_request_begin("POST",
        "http://accounts/graphql".to_string(),
        headers("subgraph"),
        "host",
        "operation",
    )
    .unwrap();
    let parts = HttpRequestParts {
        url: "HTTP://Accounts.Example.COM:80/a/../graphql".to_string(),
        method: HttpMethod::Put,
        headers: call.parts.headers,
    };
    let request = instance.on_graphql_subgraph_request_complete(HookReturn::Returned(Ok(parts))).unwrap().unwrap();
    assert_eq!(request.url, "http://accounts.example.com/graphql");
    assert_eq!(request.method, HttpMethod::Put);
    assert_eq!(request.headers, headers("subgraph"));
    assert!(!instance.resources().contains(call.parts.headers));
}

#[test]
fn an_invalid_url_is_answered_after_the_headers_are_back() {
    let mut instance = Instance::new();
    let call = instance.on_graphql_subgraph_request_begin("GET",
        "http://accounts/graphql".to_string(),
        headers("subgraph"),
        "host",
        "operation",
    )
    .unwrap();
    let parts = HttpRequestParts { url: "not a url".to_string(), method: HttpMethod::Get, headers: call.parts.headers };
    let error = instance.on_graphql_subgraph_request_complete(HookReturn::Returned(Ok(parts))).unwrap().unwrap_err();
    assert_eq!(error.code, ErrorCode::ExtensionError);
    assert_eq!(error.message, "Internal extension error");
    assert!(error.extensions.is_empty());
    assert!(!instance.resources().contains(call.parts.headers));
}

#[test]
fn a_guest_error_becomes_a_graphql_error() {
    let mut instance = Instance::new();
    let _ = instance.on_graphql_subgraph_request_begin("GET", "u".to_string(), headers("s"), "h", "o").unwrap();
    let source = GuestError { message: "denied".to_string(), extensions: vec![("code".to_string(), vec![0x18, 0x2a])] };
    let error = instance.on_graphql_subgraph_request_complete(HookReturn::Returned(Err(source))).unwrap().unwrap_err();
    assert_eq!(error.message, "denied");
    assert_eq!(error.code, ErrorCode::ExtensionError);
    assert_eq!(error.extensions.len(), 1);
    assert_eq!(error.extensions[0].0, "code");
    assert!(matches!(&error.extensions[0].1, ExtensionValue::Cbor(bytes) if bytes == &vec![0x18, 0x2a]));

    let error = into_graphql_error(
        GuestError { message: "m".to_string(), extensions: Vec::new() },
        ErrorCode::Unauthorized,
    );
    assert_eq!(error.code, ErrorCode::Unauthorized);
    assert!(error.extensions.is_empty());
}

#[test]
fn virtual_subgraph_request_round_trip() {
    let mut instance = Instance::new();
    let call = instance.on_virtual_subgraph_request_begin(headers("virtual"), "host", "operation").unwrap();
    assert_eq!(instance.on_virtual_subgraph_request_complete(HookReturn::Returned(Ok(call.headers))).unwrap().unwrap(), headers("virtual"));
    let mut instance = Instance::new();
    let call = instance.on_virtual_subgraph_request_begin(headers("virtual"), "host", "operation").unwrap();
    let source = GuestError { message: "no".to_string(), extensions: Vec::new() };
    let error = instance.on_virtual_subgraph_request_complete(HookReturn::Returned(Err(source))).unwrap().unwrap_err();
    assert_eq!(error.message, "no");
    assert!(instance.resources().contains(call.headers));
    assert_eq!(
        instance.on_virtual_subgraph_request_complete(HookReturn::Returned(Ok(call.context))).err(),
        Some(InternalError::WrongResourceKind)
    );
}

#[test]
fn pushing_a_pair_gives_two_fresh_handles() {
    let mut table = Table::new();
    let kept = table.push(HookResource::Context("kept")).unwrap();
    let (h, c) = push_headers_and_context(&mut table, headers("a"), "ctx").unwrap();
    assert!(h != c && h != kept && c != kept);
    assert!(matches!(table.get(h), Some(HookResource::Headers(found)) if found == &headers("a")));
    assert!(matches!(table.get(c), Some(HookResource::Context("ctx"))));
    assert_eq!(take_headers(&mut table, c), Err(InternalError::WrongResourceKind));
    assert_eq!(take_headers(&mut table, 77), Err(InternalError::Lease(LeaseError::NotPresent)));
}

#[test]
fn a_hook_call_poisons_the_instance_until_it_returns() {
    let mut instance = Instance::new();
    assert!(!instance.is_poisoned());
    let call = instance.on_request_begin("GET", "/".to_string(), headers("in"), "host").unwrap();
    assert!(instance.is_poisoned());
    assert!(matches!(instance.recycle(), Err(Error::Internal(InternalError::Poisoned))));
    let output = OnRequestOutput { headers: call.parts.headers, contract_key: None, context: Vec::new() };
    assert!(instance.on_request_complete(HookReturn::Returned(Ok(output))).is_ok());
    assert!(!instance.is_poisoned());
    assert!(instance.recycle().is_ok());

    let call = instance.on_response_begin(200, headers("out"), "queue", "host", "request").unwrap();
    assert!(instance.is_poisoned());
    assert_eq!(instance.on_response_complete(HookReturn::Returned(Ok(call.headers))), Ok(Ok(headers("out"))));
    assert!(!instance.is_poisoned());

    let _ = instance.on_virtual_subgraph_request_begin(headers("virtual"), "host", "operation").unwrap();
    assert!(instance.is_poisoned());
    let source = GuestError { message: "no".to_string(), extensions: Vec::new() };
    assert!(instance.on_virtual_subgraph_request_complete(HookReturn::Returned(Err(source))).is_ok());
    assert!(!instance.is_poisoned());
}

#[test]
fn a_trapped_hook_leaves_the_instance_poisoned() {
    let mut instance = Instance::new();
    let call = instance.on_request_begin("GET", "/".to_string(), headers("in"), "host").unwrap();
    assert_eq!(instance.on_request_complete(HookReturn::Trapped).err(), Some(InternalError::Trapped));
    assert!(instance.is_poisoned());
    assert!(instance.resources().contains(call.parts.headers));

    let mut instance = Instance::new();
    let _ = instance.on_response_begin(200, headers("out"), "queue", "host", "request").unwrap();
    assert_eq!(instance.on_response_complete(HookReturn::Trapped), Err(InternalError::Trapped));
    assert!(instance.is_poisoned());

    let mut instance = Instance::new();
    let _ = instance.on_graphql_subgraph_request_begin("GET", "u".to_string(), headers("s"), "h", "o").unwrap();
    assert_eq!(instance.on_graphql_subgraph_request_complete(HookReturn::Trapped).err(), Some(InternalError::Trapped));
    assert!(instance.is_poisoned());

    let mut instance = Instance::new();
    let _ = instance.on_virtual_subgraph_request_begin(headers("v"), "h", "o").unwrap();
    assert_eq!(instance.on_virtual_subgraph_request_complete(HookReturn::Trapped).err(), Some(InternalError::Trapped));
    assert!(instance.is_poisoned());
}

#[test]
fn a_hook_instance_whose_call_was_dropped_never_becomes_idle() {
    let mut pool: InstancePool<Instance> = InstancePool::new();
    let mut instance = Instance::new();
    let _ = instance.on_request_begin("GET", "/".to_string(), headers("in"), "host").unwrap();
    pool.release(instance);
    assert_eq!(pool.idle_count(), 0);
    assert!(pool.checkout().is_none());

    let mut instance = Instance::new();
    let call = instance.on_request_begin("GET", "/".to_string(), headers("in"), "host").unwrap();
    let output = OnRequestOutput { headers: call.parts.headers, contract_key: None, context: Vec::new() };
    assert!(instance.on_request_complete(HookReturn::Returned(Ok(output))).is_ok());
    pool.release(instance);
    assert_eq!(pool.idle_count(), 1);
    assert!(!pool.checkout().unwrap().is_poisoned());
}
