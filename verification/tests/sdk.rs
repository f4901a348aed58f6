use extension_host::host::error::{GuestError, GuestErrorResponse};
use extension_host::host::instance::Token;
use extension_host::host::wit_schema::{SchemaType, SchemaWrappingType, Ty, WrappingType};
use extension_host::mocks::products::{http_header, FederatedProductsSchema, WeightUnit};
use extension_host::mocks::reviews::{
    user_by_id, FederatedReviewsSchema, ShippingService, Trustworthiness, User,
};
use extension_host::sdk::component::Component;
use extension_host::sdk::extension::{
    error_response_from, not_initialized, AnyExtension, AuthorizationDecisions, FieldDefinitionDirective,
};
use extension_host::sdk::headers::{GatewayHeaders, HttpHeaders, SubgraphHeaders};
use extension_host::sdk::hooks::{
    Context, EdgeDefinition, EdgePreExecutionArguments, ExecutedHttpRequest, ExecutedOperation,
    ExecutedSubgraphRequest, EdgeNodePostExecutionArguments, EdgePostExecutionArguments, HookComponent, HookExports,
    HookImpls, Hooks, NodePreExecutionArguments, ParentEdgePostExecutionArguments, SharedContext, SubgraphRequest,
};

struct Nothing;

impl AnyExtension for Nothing {}

struct Authorizer;

impl AnyExtension for Authorizer {
    fn authenticate(&mut self, headers: &GatewayHeaders) -> Result<Token, GuestErrorResponse> {
        match headers.headers().get("authorization") {
            Some(value) => Ok(Token::Bytes(value)),
            None => Ok(Token::Anonymous),
        }
    }

    fn authorize_query(
        &mut self,
        headers: &mut SubgraphHeaders,
        _token: Token,
        elements: &[u8],
    ) -> Result<(AuthorizationDecisions, Vec<u8>), GuestErrorResponse> {
        headers.0.append("x-authorized", b"yes".to_vec()).unwrap();
        Ok((AuthorizationDecisions::GrantAll, elements.to_vec()))
    }
}

fn directive() -> FieldDefinitionDirective {
    FieldDefinitionDirective {
        name: "resolve".to_string(),
        parent: "Query".to_string(),
        field_name: "me".to_string(),
        arguments: Vec::new(),
    }
}

fn subgraph_headers() -> SubgraphHeaders {
    SubgraphHeaders(HttpHeaders::new())
}

#[test]
fn calls_before_registration_fail() {
    let mut component: Component<Nothing> = Component::new();
    let error = component.resolve_field(subgraph_headers(), "s", &directive(), &Vec::new()).unwrap_err();
    assert_eq!(error.message, "Extension was not registered.");
    let response = component.authenticate(GatewayHeaders(HttpHeaders::new())).unwrap_err();
    assert_eq!(response.status_code, 500);
    assert_eq!(response.errors.len(), 1);
    assert_eq!(response.errors[0].message, "Extension was not registered.");
    assert!(component.authorize_response(Vec::new(), &[]).is_err());
    assert!(component.subscription_key(subgraph_headers(), "s", &directive()).is_err());
    assert!(component.resolve_next_subscription_item().is_err());
    assert!(component.authorize_query(subgraph_headers(), Token::Anonymous, &[]).is_err());
    assert!(component.resolve_subscription(subgraph_headers(), "s", &directive()).is_err());
}

#[test]
fn unimplemented_extension_points_answer_with_their_kind() {
    let mut component: Component<Nothing> = Component::new();
    component.register_extension(Nothing);
    let error = component.resolve_field(subgraph_headers(), "s", &directive(), &Vec::new()).unwrap_err();
    assert_eq!(error.message, "Resolver extension not initialized correctly.");
    let response = component.authenticate(GatewayHeaders(HttpHeaders::new())).unwrap_err();
    assert_eq!(response.status_code, 500);
    assert_eq!(response.errors[0].message, "Authentication extension not initialized correctly.");
    let error = component.authorize_response(Vec::new(), &[]).unwrap_err();
    assert_eq!(error.message, "Authorization extension not initialized correctly.");
    let response = component.authorize_query(subgraph_headers(), Token::Anonymous, &[]).unwrap_err();
    assert_eq!(response.errors[0].message, "Authorization extension not initialized correctly.");
    let error = Nothing.selection_set_resolver_prepare("s", &[]).unwrap_err();
    assert_eq!(error.message, "Selection set resolver extension not initialized correctly.");
    assert_eq!(not_initialized("X").message, "X not initialized correctly.");
}

#[test]
fn the_component_dispatches_to_the_extension() {
    let mut component = Component::new();
    component.register_extension(Authorizer);
    let mut headers = HttpHeaders::new();
    headers.append("Authorization", b"Bearer t".to_vec()).unwrap();
    let (headers, token) = component.authenticate(GatewayHeaders(headers)).unwrap();
    assert!(headers.headers().has("authorization"));
    assert!(matches!(token, Token::Bytes(bytes) if bytes == b"Bearer t".to_vec()));
    let output = component.authorize_query(subgraph_headers(), Token::Anonymous, &[1, 2]).unwrap();
    assert!(matches!(output.decisions, AuthorizationDecisions::GrantAll));
    assert_eq!(output.state, vec![1, 2]);
    assert_eq!(output.headers.headers().get("x-authorized"), Some(b"yes".to_vec()));
}

#[test]
fn one_error_makes_an_internal_server_error_response() {
    let response = error_response_from(GuestError { message: "m".to_string(), extensions: Vec::new() });
    assert_eq!(response.status_code, 500);
    let converted = GuestErrorResponse::from(GuestError { message: "n".to_string(), extensions: Vec::new() });
    assert_eq!((converted.status_code, converted.errors[0].message.as_str()), (500, "n"));
    assert_eq!(response.errors.len(), 1);
    assert_eq!(response.errors[0].message, "m");
}

struct Recorder {
    calls: Vec<String>,
}

impl HookImpls for Recorder {
    fn hook_implementations(&self) -> u32 {
        0b11
    }
}

impl HookExports for Recorder {}

impl Hooks for Recorder {
    fn new() -> Self {
        Recorder { calls: Vec::new() }
    }

    fn on_gateway_request(&mut self, _: Context, url: String, _: HttpHeaders) -> Result<(), GuestErrorResponse> {
        self.calls.push(format!("gateway {}", url));
        Ok(())
    }

    fn on_subgraph_request(&mut self, _: SharedContext, name: String, _: SubgraphRequest) -> Result<(), GuestError> {
        self.calls.push(format!("subgraph {}", name));
        Ok(())
    }

    fn authorize_edge_pre_execution(&mut self, _: SharedContext, arguments: EdgePreExecutionArguments) -> Result<(), GuestError> {
        self.calls.push(format!("edge {} {}", arguments.definition.field_name, arguments.arguments));
        Err(GuestError { message: arguments.metadata, extensions: Vec::new() })
    }

    fn authorize_node_pre_execution(&mut self, _: SharedContext, arguments: NodePreExecutionArguments) -> Result<(), GuestError> {
        self.calls.push(format!("node {}", arguments.definition.name));
        Ok(())
    }

    fn authorize_parent_edge_post_execution(
        &mut self,
        _: SharedContext,
        arguments: ParentEdgePostExecutionArguments,
    ) -> Vec<Result<(), GuestError>> {
        arguments.parents.iter().map(|_| Ok(())).collect()
    }

    fn authorize_edge_node_post_execution(
        &mut self,
        _: SharedContext,
        arguments: EdgeNodePostExecutionArguments,
    ) -> Vec<Result<(), GuestError>> {
        arguments.nodes.iter().map(|_| Ok(())).collect()
    }

    fn authorize_edge_post_execution(&mut self, _: SharedContext, arguments: EdgePostExecutionArguments) -> Vec<Result<(), GuestError>> {
        arguments.edges.iter().map(|_| Ok(())).collect()
    }

    fn on_subgraph_response(&mut self, _: SharedContext, request: ExecutedSubgraphRequest) -> Vec<u8> {
        request.subgraph_name.into_bytes()
    }

    fn on_operation_response(&mut self, _: SharedContext, operation: ExecutedOperation) -> Vec<u8> {
        operation.document.into_bytes()
    }

    fn on_http_response(&mut self, _: SharedContext, response: ExecutedHttpRequest) {
        self.calls.push(format!("http {}", response.status_code));
    }
}

fn shared() -> SharedContext {
    SharedContext { entries: Vec::new() }
}

fn edge() -> EdgeDefinition {
    EdgeDefinition { parent: "User".to_string(), field_name: "name".to_string() }
}

#[test]
fn the_hook_component_hands_each_call_to_the_hooks() {
    let mut component: HookComponent<Recorder> = HookComponent::new();
    assert_eq!(component.hooks().hook_implementations(), 3);
    assert!(component
        .on_gateway_request(Context { entries: Vec::new() }, "/graphql".to_string(), HttpHeaders::new())
        .is_ok());
    let error = component
        .authorize_edge_pre_execution(shared(), edge(), "{\"id\":1}".to_string(), "meta".to_string())
        .unwrap_err();
    assert_eq!(error.message, "meta");
    let verdicts = component.authorize_parent_edge_post_execution(
        shared(),
        edge(),
        vec!["a".to_string(), "b".to_string()],
        String::new(),
    );
    assert_eq!(verdicts.len(), 2);
    let verdicts =
        component.authorize_edge_post_execution(shared(), edge(), vec![("p".to_string(), Vec::new())], String::new());
    assert_eq!(verdicts.len(), 1);
    component.on_http_response(
        shared(),
        ExecutedHttpRequest {
            method: "POST".to_string(),
            url: "/".to_string(),
            status_code: 200,
            on_operation_response_outputs: Vec::new(),
        },
    );
    assert_eq!(component.hooks().calls, vec!["gateway /graphql", "edge name {\"id\":1}", "http 200"]);
}

#[test]
fn wit_types_keep_their_wrapping() {
    let ty = SchemaType {
        wrapping: vec![SchemaWrappingType::NonNull, SchemaWrappingType::List, SchemaWrappingType::NonNull],
        definition_id: 12,
    };
    let converted = Ty::from(&ty);
    assert_eq!(converted.definition_id, 12);
    assert_eq!(converted.wrapping, vec![WrappingType::NonNull, WrappingType::List, WrappingType::NonNull]);
    assert!(!converted.is_nullable());
    assert!(Ty { wrapping: vec![WrappingType::List], definition_id: 1 }.is_nullable());
    assert!(Ty { wrapping: Vec::new(), definition_id: 1 }.is_nullable());
    assert_eq!(WrappingType::from(SchemaWrappingType::List), WrappingType::List);
}

#[test]
fn products_are_found_by_code() {
    let schema = FederatedProductsSchema::default();
    assert_eq!(schema.name(), "products");
    assert_eq!(schema.products.len(), 5);
    let fedora = schema.find_product_by_upc("top-2").unwrap();
    assert_eq!(fedora.name, "Fedora");
    assert_eq!(fedora.price, 22);
    assert_eq!(fedora.weight(WeightUnit::Gram), (200, 1));
    assert_eq!(fedora.weight(WeightUnit::Kilogram), (200, 1000));
    assert!(schema.find_product_by_upc("top-6").is_none());
    assert_eq!(schema.new_products(), vec![3, 4]);
}

#[test]
fn users_are_trusted_by_age_and_reviews() {
    let user = user_by_id("1234".to_string(), Some(500));
    assert_eq!((user.review_count, user.joined_timestamp), (2, 500));
    assert_eq!(user.trustworthiness(), Trustworthiness::ReallyTrusted);
    let user = user_by_id("7777".to_string(), Some(500));
    assert_eq!(user.review_count, 1);
    assert_eq!(user.trustworthiness(), Trustworthiness::KindaTrusted);
    let user = user_by_id("1".to_string(), None);
    assert_eq!((user.review_count, user.joined_timestamp), (0, 9001));
    assert_eq!(user.trustworthiness(), Trustworthiness::NotTrusted);
    let user = User { id: "x".to_string(), review_count: 5, joined_timestamp: 1999 };
    assert_eq!(user.trustworthiness(), Trustworthiness::KindaTrusted);
    let user = User { id: "x".to_string(), review_count: 5, joined_timestamp: 2000 };
    assert_eq!(user.trustworthiness(), Trustworthiness::NotTrusted);
}

#[test]
fn reviews_have_authors_and_services_have_reviews() {
    let schema = FederatedReviewsSchema::default();
    assert_eq!(schema.name(), "reviews");
    assert_eq!(schema.reviews.len(), 4);
    assert_eq!(schema.reviews[0].pictures.len(), 2);
    assert_eq!(schema.reviews[0].pictures[1].width, 42);
    let author = FederatedReviewsSchema::author(&schema.reviews[2]).unwrap();
    assert_eq!(author.id, "7777");
    assert_eq!(author.review_count, 1);
    assert!(FederatedReviewsSchema::author(&schema.reviews[3]).is_none());
    let service = ShippingService::shipping_service_by_id("1".to_string(), Some("Planet Express".to_string()));
    assert_eq!(service.reviews()[0].body, "Not as good as Mom's Friendly Delivery Company");
    let service = ShippingService::shipping_service_by_id("2".to_string(), Some("Cher Ami".to_string()));
    assert_eq!(service.reviews()[0].body, "Saved my life in the war");
    let service = ShippingService::shipping_service_by_id("3".to_string(), None);
    assert_eq!(service.name, "");
    assert!(service.reviews().is_empty());
}

#[test]
fn subscription_reads_the_headers_of_its_request() {
    let mut headers = HttpHeaders::new();
    headers.append("X-One", b"1".to_vec()).unwrap();
    headers.append("x-one", b"2".to_vec()).unwrap();
    let found = http_header(&headers, vec!["x-one".to_string(), "x-two".to_string()]);
    assert_eq!(found, vec![("x-one".to_string(), Some(b"1".to_vec())), ("x-two".to_string(), None)]);
}
