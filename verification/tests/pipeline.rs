use extension_host::graphql_error::{ErrorCode, ErrorResponse, ExtensionValue, GraphqlError};
use extension_host::host::error::{GuestErrorResponse, InternalError};
use extension_host::host::hooks::OnRequest;
use extension_host::host::instance::ExtensionInstanceSince0_10_0;
use extension_host::router::extension::{AfterAuthenticate, AfterOnRequest, ExtensionLayer};
use extension_host::runtime::hooks::{not_implemented, DefaultHooks, DynHookContext, DynHooks, DynamicHooks, EdgeDefinition, NodeDefinition};
use extension_host::runtime_local::hooks::{
    client_error, error_response_to_user_error, EdgeAuthorizationPlan, GatewayRequestPlan, HookError, HooksWasi,
    UserErrorResponse,
};

type Instance = ExtensionInstanceSince0_10_0<u8>;

fn layer(default_key: Option<&str>) -> ExtensionLayer<&'static str, &'static str> {
    ExtensionLayer::new("extensions", "auth", default_key.map(String::from))
}

#[test]
fn layer_keeps_what_it_was_made_of() {
    let layer = layer(Some("default"));
    assert_eq!(layer.0.extensions, "extensions");
    assert_eq!(layer.0.auth, "auth");
    assert_eq!(layer.0.default_contract_key.as_deref(), Some("default"));
    let service = layer.layer(5);
    assert_eq!(service.next, 5);
    assert_eq!(service.layer.default_contract_key.as_deref(), Some("default"));
    assert!(std::sync::Arc::ptr_eq(&service.layer, &layer.0));
}

#[test]
fn on_request_error_is_terminal() {
    let service = layer(None).layer(());
    let error = extension_host::host::error::ErrorResponse::Internal(InternalError::Trapped);
    let next = service.after_on_request::<u8, u8>(Err(error));
    assert!(matches!(
        next,
        AfterOnRequest::Respond(extension_host::host::error::ErrorResponse::Internal(InternalError::Trapped))
    ));
    let response = GuestErrorResponse { status_code: 401, errors: Vec::new() };
    let next = service.after_on_request::<u8, u8>(Err(extension_host::host::error::ErrorResponse::Guest(response)));
    match next {
        AfterOnRequest::Respond(extension_host::host::error::ErrorResponse::Guest(response)) => {
            assert_eq!(response.status_code, 401)
        }
        _ => panic!("an error of on_request ends the request"),
    }
}

#[test]
fn on_request_success_leads_to_authentication() {
    let service = layer(None).layer(());
    let request = OnRequest { context: "ctx", headers: vec![1u8], contract_key: Some("k".to_string()) };
    match service.after_on_request(Ok(request)) {
        AfterOnRequest::Authenticate { context, headers, contract_key } => {
            assert_eq!(context, "ctx");
            assert_eq!(headers, vec![1u8]);
            assert_eq!(contract_key.as_deref(), Some("k"));
        }
        AfterOnRequest::Respond(_) => panic!("the hooks succeeded"),
    }
}

#[test]
fn the_contract_key_falls_back_to_the_default() {
    let service = layer(Some("default")).layer(());
    match service.after_authenticate(None, Ok(("headers", "token"))) {
        AfterAuthenticate::CallNext { headers, token, contract_key } => {
            assert_eq!((headers, token), ("headers", "token"));
            assert_eq!(contract_key.as_deref(), Some("default"));
        }
        AfterAuthenticate::Respond(_) => panic!("authentication succeeded"),
    }
    match service.after_authenticate(Some("chosen".to_string()), Ok(("headers", "token"))) {
        AfterAuthenticate::CallNext { contract_key, .. } => assert_eq!(contract_key.as_deref(), Some("chosen")),
        AfterAuthenticate::Respond(_) => panic!("authentication succeeded"),
    }
    let service = layer(None).layer(());
    match service.after_authenticate(None, Ok(("headers", "token"))) {
        AfterAuthenticate::CallNext { contract_key, .. } => assert_eq!(contract_key, None),
        AfterAuthenticate::Respond(_) => panic!("authentication succeeded"),
    }
}

#[test]
fn authentication_failure_skips_the_inner_service() {
    let service = layer(Some("default")).layer(());
    let error = ErrorResponse::new(401).with_error(GraphqlError::new("who?".to_string(), ErrorCode::Unauthenticated));
    match service.after_authenticate::<u8, u8>(Some("k".to_string()), Err(error)) {
        AfterAuthenticate::Respond(error) => {
            assert_eq!(error.status, 401);
            assert_eq!(error.errors.len(), 1);
            assert_eq!(error.errors[0].message, "who?");
        }
        AfterAuthenticate::CallNext { .. } => panic!("the inner service must not be called"),
    }
}

#[test]
fn on_response_failure_is_an_internal_server_error() {
    let service = layer(None).layer(());
    assert_eq!(service.after_on_response(Ok(204)).unwrap(), 204);
    let error = service.after_on_response::<u16>(Err("hook failed".to_string())).unwrap_err();
    assert_eq!(error.status, 500);
    assert_eq!(error.errors.len(), 1);
    assert_eq!(error.errors[0].message, "hook failed");
    assert_eq!(error.errors[0].code, ErrorCode::ExtensionError);
    let record = service.executed_request("/graphql".to_string(), "POST".to_string(), 500);
    assert_eq!((record.url.as_str(), record.method.as_str(), record.response_status), ("/graphql", "POST", 500));
}

#[test]
fn user_error_extensions_are_read_as_json_where_they_are_json() {
    let source = UserErrorResponse {
        message: "denied".to_string(),
        extensions: vec![
            ("count".to_string(), "42".to_string()),
            ("reason".to_string(), "not json".to_string()),
            ("detail".to_string(), "{\"a\":[1,2]}".to_string()),
            ("quoted".to_string(), "\"text\"".to_string()),
        ],
    };
    let error = error_response_to_user_error(source);
    assert_eq!(error.message, "denied");
    assert_eq!(error.code, ErrorCode::HookError);
    assert_eq!(error.extensions.len(), 4);
    let mut expected = serde_json::Map::new();
    expected.insert("a".to_string(), serde_json::Value::from(vec![1, 2]));
    assert!(matches!(&error.extensions[0], (key, ExtensionValue::Json(value)) if key == "count" && value == &serde_json::Value::from(42)));
    assert!(matches!(&error.extensions[1], (key, ExtensionValue::Text(text)) if key == "reason" && text == "not json"));
    assert!(matches!(&error.extensions[2], (key, ExtensionValue::Json(value)) if key == "detail" && value == &serde_json::Value::Object(expected.clone())));
    assert!(matches!(&error.extensions[3], (key, ExtensionValue::Json(value)) if key == "quoted" && value == &serde_json::Value::from("text")));
}

#[test]
fn internal_hook_errors_are_hidden_from_the_client() {
    let error = client_error(HookError::Internal("wasm trap: unreachable".to_string()));
    assert_eq!(error.message, "Internal server error");
    assert_eq!(error.code, ErrorCode::InternalServerError);
    assert!(error.extensions.is_empty());
    let error = client_error(HookError::User(UserErrorResponse { message: "no".to_string(), extensions: Vec::new() }));
    assert_eq!(error.message, "no");
}

#[test]
fn without_hooks_authorized_fields_are_denied() {
    let hooks: HooksWasi<Instance> = HooksWasi::new(None::<()>);
    assert!(!hooks.is_enabled());
    let error = hooks.authorize_edge_pre_execution(Ok(vec![None])).unwrap_err();
    assert_eq!(error.message, "@authorized directive cannot be used, so access was denied");
    assert_eq!(error.code, ErrorCode::Unauthorized);
}

#[test]
fn the_one_verdict_of_the_hook_decides() {
    let hooks: HooksWasi<Instance> = HooksWasi::new(Some("loader"));
    assert!(hooks.is_enabled());
    assert!(hooks.authorize_edge_pre_execution(Ok(vec![None])).is_ok());
    let denial = UserErrorResponse { message: "denied".to_string(), extensions: Vec::new() };
    let error = hooks.authorize_edge_pre_execution(Ok(vec![Some(denial)])).unwrap_err();
    assert_eq!(error.message, "denied");
    assert_eq!(error.code, ErrorCode::HookError);
    let error = hooks.authorize_edge_pre_execution(Err(HookError::Internal("x".to_string()))).unwrap_err();
    assert_eq!(error.code, ErrorCode::InternalServerError);
}

#[test]
fn a_verdict_list_of_another_length_is_an_internal_error() {
    let hooks: HooksWasi<Instance> = HooksWasi::new(Some("loader"));
    let error = hooks.authorize_edge_pre_execution(Ok(Vec::new())).unwrap_err();
    assert_eq!(error.message, "Internal server error");
    assert_eq!(error.code, ErrorCode::InternalServerError);
    assert!(error.extensions.is_empty());

    let denial = UserErrorResponse { message: "late".to_string(), extensions: Vec::new() };
    let error = hooks.authorize_edge_pre_execution(Ok(vec![None, Some(denial)])).unwrap_err();
    assert_eq!(error.message, "Internal server error");
    assert_eq!(error.code, ErrorCode::InternalServerError);
    assert!(error.extensions.is_empty());

    let denial = UserErrorResponse { message: "denied".to_string(), extensions: Vec::new() };
    let error = hooks.authorize_edge_pre_execution(Ok(vec![Some(denial), None])).unwrap_err();
    assert_eq!(error.message, "Internal server error");
    assert_eq!(error.code, ErrorCode::InternalServerError);

    let error = hooks.authorize_edge_pre_execution(Ok(vec![None, None, None])).unwrap_err();
    assert_eq!(error.code, ErrorCode::InternalServerError);
}

#[test]
fn a_gateway_without_hooks_passes_the_request_through() {
    let hooks: HooksWasi<Instance> = HooksWasi::new(None::<()>);
    match hooks.plan_gateway_request(vec![("accept", "*/*")]) {
        GatewayRequestPlan::Pass(context, headers) => {
            assert!(context.is_empty());
            assert_eq!(headers, vec![("accept", "*/*")]);
        }
        GatewayRequestPlan::Call(..) => panic!("no guest can be called"),
    }
    let hooks: HooksWasi<Instance> = HooksWasi::new(Some(()));
    match hooks.plan_gateway_request(vec![("accept", "*/*")]) {
        GatewayRequestPlan::Call(context, headers) => {
            assert!(context.is_empty());
            assert_eq!(headers, vec![("accept", "*/*")]);
        }
        GatewayRequestPlan::Pass(..) => panic!("the hook must be called"),
    }
}

#[test]
fn the_authorization_hook_is_asked_about_exactly_one_item() {
    let hooks: HooksWasi<Instance> = HooksWasi::new(Some(()));
    match hooks.plan_edge_authorization(Some("{\"id\":1}".to_string())) {
        EdgeAuthorizationPlan::Call(items) => assert_eq!(items, vec!["{\"id\":1}".to_string()]),
        EdgeAuthorizationPlan::Refuse(_) => panic!("the hook must be called"),
    }
    match hooks.plan_edge_authorization(None) {
        EdgeAuthorizationPlan::Refuse(error) => {
            assert_eq!(error.message, "Internal server error");
            assert_eq!(error.code, ErrorCode::InternalServerError);
            assert!(error.extensions.is_empty());
        }
        EdgeAuthorizationPlan::Call(_) => panic!("arguments that were not serialized cannot be handed on"),
    }
    let hooks: HooksWasi<Instance> = HooksWasi::new(None::<()>);
    match hooks.plan_edge_authorization(Some("{}".to_string())) {
        EdgeAuthorizationPlan::Refuse(error) => {
            assert_eq!(error.message, "@authorized directive cannot be used, so access was denied");
            assert_eq!(error.code, ErrorCode::Unauthorized);
        }
        EdgeAuthorizationPlan::Call(_) => panic!("no guest can be called"),
    }
}

#[test]
fn gateway_request_hook_passes_its_result_on() {
    let hooks: HooksWasi<Instance> = HooksWasi::new(Some(()));
    assert_eq!(hooks.on_gateway_request(Ok(("ctx", "headers"))).unwrap(), ("ctx", "headers"));
    let error = hooks.on_gateway_request::<u8, u8>(Err(HookError::Internal("x".to_string()))).unwrap_err();
    assert_eq!(error.message, "Internal server error");
}

#[test]
fn default_hooks_deny_and_pass_through() {
    let hooks = DynamicHooks::new(DefaultHooks);
    let context = hooks.new_context();
    let edge = || EdgeDefinition { parent: "User".to_string(), field_name: "name".to_string() };
    let node = || NodeDefinition { name: "User".to_string() };
    let error = hooks.authorize_edge_pre_execution(&context, edge(), serde_json::Value::Null, None).unwrap_err();
    assert_eq!(error.message, "authorize_edge_pre_execution is not implemented");
    assert_eq!(error.code, ErrorCode::Unauthorized);
    let error = hooks.authorize_node_pre_execution(&context, node(), None).unwrap_err();
    assert_eq!(error.message, "authorize_node_pre_execution is not implemented");
    let error = hooks.authorize_node_post_execution(&context, node(), Vec::new(), None).unwrap_err();
    assert_eq!(error.message, "authorize_node_post_execution is not implemented");
    let error = hooks.authorize_parent_edge_post_execution(&context, edge(), Vec::new(), None).unwrap_err();
    assert_eq!(error.message, "authorize_parent_edge_post_execution is not implemented");
    let error = hooks.authorize_edge_node_post_execution(&context, edge(), Vec::new(), None).unwrap_err();
    assert_eq!(error.message, "authorize_edge_node_post_execution is not implemented");
    let error = hooks.authorize_edge_post_execution(&context, edge(), Vec::new(), None).unwrap_err();
    assert_eq!(error.message, "authorize_edge_post_execution is not implemented");
    let headers = vec![("a".to_string(), vec![1u8])];
    let (context, returned) = hooks.on_gateway_request("/graphql", headers.clone()).unwrap();
    assert_eq!(returned, headers);
    assert!(context.get("anything").is_none());
    assert_eq!(DefaultHooks.on_subgraph_response(&context, "accounts").unwrap(), Vec::<u8>::new());
    assert_eq!(not_implemented("x").message, "x is not implemented");
}

#[test]
fn hook_context_returns_the_last_value_under_a_name() {
    let mut context = DynHookContext::new();
    assert_eq!(context.get("user"), None);
    context.insert("user".to_string(), serde_json::Value::from("alice"));
    context.insert("role".to_string(), serde_json::Value::from(1));
    assert_eq!(context.get("user"), Some(serde_json::Value::from("alice")));
    context.insert("user".to_string(), serde_json::Value::from("bob"));
    assert_eq!(context.get("user"), Some(serde_json::Value::from("bob")));
    assert_eq!(context.get("role"), Some(serde_json::Value::from(1)));
    assert_eq!(context.get("User"), None);
}
