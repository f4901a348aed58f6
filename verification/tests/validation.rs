use extension_host::codegen::union_enum::{
    additional_derives, allow_unused, generate_enum, has_from_impl, variant_methods, StorageType, Union, UnionKind,
    VariantContext,
};
use extension_host::registry::variables::{CursorText, VariableResolveDefinition};
use extension_host::gateway::args::{Args, ConfigRead, ConfigSource, GraphLoader, LogStyle};
use extension_host::registry::delete_one::{row_count, statement, DeleteAnswer, DeleteStatement};
use extension_host::registry::value::GraphqlValue;
use extension_host::router::telemetry::{RequestFacts, TelemetryLayer};
use extension_host::schema::error::BuildError;
use extension_host::schema::link_directive::{Import, LinkDirective, LinkError, Purpose, QualifiedImport};
use extension_host::schema::retry::{GatewayRetryConfig, RetryConfig};
use extension_host::telemetry::metrics::{Client, OperationType};
use extension_host::telemetry::otel::{build, new_noop, resource_attributes, OtelTelemetry, TelemetrySetup};
use extension_host::validation::input_object_cycles::{
    input_object_cycles, Context, InputObjectType, InputValueDefinition,
};

fn text(value: &str) -> GraphqlValue {
    GraphqlValue::String(value.to_string())
}

fn object(fields: Vec<(&str, GraphqlValue)>) -> GraphqlValue {
    GraphqlValue::Object(fields.into_iter().map(|(name, value)| (name.to_string(), value)).collect())
}

#[test]
fn link_directive_is_read_from_its_arguments() {
    let value = object(vec![
        ("url", text("https://specs.apollo.dev/federation/v2.3")),
        ("as", text("fed")),
        (
            "import",
            GraphqlValue::List(vec![
                text("@key"),
                object(vec![("name", text("@shareable")), ("as", text("@share"))]),
                object(vec![("name", text("@external"))]),
            ]),
        ),
    ]);
    let directive = LinkDirective::deserialize(&value).unwrap();
    assert_eq!(directive.url, "https://specs.apollo.dev/federation/v2.3");
    assert_eq!(directive.alias.as_deref(), Some("fed"));
    let import = directive.import.unwrap();
    assert_eq!(import.len(), 3);
    assert!(matches!(&import[0], Import::String(name) if name == "@key"));
    assert!(matches!(&import[1], Import::Qualified(QualifiedImport { name, alias: Some(alias) }) if name == "@shareable" && alias == "@share"));
    assert!(matches!(&import[2], Import::Qualified(QualifiedImport { name, alias: None }) if name == "@external"));
}

#[test]
fn link_directive_with_only_a_url() {
    let directive = LinkDirective::deserialize(&object(vec![("url", text("u"))])).unwrap();
    assert_eq!(directive.url, "u");
    assert!(directive.alias.is_none());
    assert!(directive.import.is_none());
    let directive = LinkDirective::deserialize(&object(vec![("url", text("first")), ("url", text("second"))])).unwrap();
    assert_eq!(directive.url, "second");
}

#[test]
fn link_directive_errors() {
    let error = |value: &GraphqlValue| LinkDirective::deserialize(value).unwrap_err();
    assert!(matches!(error(&text("x")), LinkError::BadLinkDirective));
    assert!(matches!(error(&object(vec![("url", GraphqlValue::Boolean(true))])), LinkError::BadUrl));
    assert!(matches!(error(&object(vec![("url", text("u")), ("as", GraphqlValue::Null)])), LinkError::BadAs));
    assert!(matches!(error(&object(vec![("as", text("a"))])), LinkError::MissingUrl));
    assert!(matches!(error(&object(Vec::new())), LinkError::MissingUrl));
    match error(&object(vec![("for", text("SECURITY")), ("url", GraphqlValue::Null)])) {
        LinkError::UnknownArgument(name) => assert_eq!(name, "for"),
        other => panic!("{:?}", other),
    }
    assert!(matches!(error(&object(vec![("import", text("@key"))])), LinkError::BadImport));
    assert!(matches!(
        error(&object(vec![("url", text("u")), ("import", GraphqlValue::List(vec![GraphqlValue::Null]))])),
        LinkError::BadImport
    ));
    assert_eq!(LinkError::UnknownArgument("for".to_string()).message(), "Unknown argument `for` in `@link` directive");
    assert_eq!(LinkError::MissingUrl.message(), "Missing `url` argument in `@link` directive");
    assert_eq!(LinkError::BadUrl.message(), "Bad `url` argument in `@link` directive");
    assert_eq!(LinkError::BadAs.message(), "Bad `as` argument in `@link` directive");
    assert_eq!(LinkError::BadLinkDirective.message(), "Bad link directive");
    assert_eq!(LinkError::BadImport.message(), "Bad import");
    assert_eq!(LinkError::BadPurpose.message(), "Bad purpose");
}

#[test]
fn qualified_imports_have_at_most_two_fields() {
    let import = QualifiedImport::deserialize(&object(vec![("name", text("a")), ("other", text("b"))])).unwrap();
    assert_eq!(import.name, "a");
    assert!(import.alias.is_none());
    let import = QualifiedImport::deserialize(&object(vec![("name", text("a")), ("name", text("b")), ("as", text("c"))]))
        .unwrap();
    assert_eq!((import.name.as_str(), import.alias.as_deref()), ("b", Some("c")));
    let too_many = object(vec![("name", text("a")), ("as", text("b")), ("x", text("c"))]);
    assert!(matches!(QualifiedImport::deserialize(&too_many), Err(LinkError::BadImport)));
    assert!(matches!(QualifiedImport::deserialize(&object(vec![("as", text("b"))])), Err(LinkError::BadImport)));
    assert!(matches!(
        QualifiedImport::deserialize(&object(vec![("name", GraphqlValue::Null)])),
        Err(LinkError::BadImport)
    ));
    assert!(matches!(
        QualifiedImport::deserialize(&object(vec![("name", text("a")), ("as", GraphqlValue::Null)])),
        Err(LinkError::BadImport)
    ));
    assert!(matches!(QualifiedImport::deserialize(&text("a")), Err(LinkError::BadImport)));
}

#[test]
fn purposes() {
    assert_eq!(Purpose::deserialize(&text("SECURITY")).unwrap(), Purpose::Security);
    assert_eq!(Purpose::deserialize(&text("EXECUTION")).unwrap(), Purpose::Execution);
    assert!(matches!(Purpose::deserialize(&text("security")), Err(LinkError::BadPurpose)));
    assert!(matches!(Purpose::deserialize(&GraphqlValue::Null), Err(LinkError::BadPurpose)));
}

fn field(name: &str, base_type: &str, nullable: bool, is_list: bool) -> InputValueDefinition {
    InputValueDefinition { name: name.to_string(), base_type: base_type.to_string(), nullable, is_list }
}

fn input(name: &str, fields: Vec<InputValueDefinition>) -> InputObjectType {
    InputObjectType { name: name.to_string(), fields }
}

fn cycle_context() -> Context {
    Context {
        input_objects: vec![
            input("A", vec![field("id", "ID", false, false), field("b", "B", false, false)]),
            input("B", vec![field("maybe", "A", true, false), field("many", "A", false, true), field("c", "C", false, false)]),
            input("C", vec![field("d", "D", false, false), field("a", "A", false, false)]),
            input("D", vec![field("c", "C", false, false), field("name", "String", false, false)]),
            input("Tree", vec![field("left", "Tree", true, false), field("value", "Int", false, false)]),
            input("Self", vec![field("me", "Self", false, false)]),
        ],
    }
}

#[test]
fn a_chain_of_required_fields_back_to_the_type_is_reported() {
    let ctx = cycle_context();
    let cycle = input_object_cycles("A", &ctx.input_objects[0].fields, &ctx).unwrap();
    assert_eq!(cycle.path, vec!["b", "c", "a"]);
    assert_eq!(
        cycle.message,
        "Cannot reference Input Object A within itself through a series of non-null fields: \"b.c.a\""
    );
    let cycle = input_object_cycles("Self", &ctx.input_objects[5].fields, &ctx).unwrap();
    assert_eq!(cycle.path, vec!["me"]);
    assert_eq!(
        cycle.message,
        "Cannot reference Input Object Self within itself through a series of non-null fields: \"me\""
    );
    let cycle = input_object_cycles("C", &ctx.input_objects[2].fields, &ctx).unwrap();
    assert_eq!(cycle.path, vec!["d", "c"]);
}

#[test]
fn nullable_fields_and_lists_break_the_chain() {
    let ctx = cycle_context();
    assert!(input_object_cycles("Tree", &ctx.input_objects[4].fields, &ctx).is_none());
    let ctx = Context {
        input_objects: vec![
            input("A", vec![field("b", "B", false, false)]),
            input("B", vec![field("a", "A", true, false), field("list", "A", false, true)]),
        ],
    };
    assert!(input_object_cycles("A", &ctx.input_objects[0].fields, &ctx).is_none());
    assert!(input_object_cycles("A", &Vec::new(), &ctx).is_none());
}

#[test]
fn the_search_enters_every_input_object_once() {
    let ctx = Context {
        input_objects: vec![
            input("A", vec![field("b", "B", false, false), field("c", "C", false, false)]),
            input("B", vec![field("c", "C", false, false), field("b", "B", false, false)]),
            input("C", vec![field("b", "B", false, false)]),
        ],
    };
    assert!(input_object_cycles("A", &ctx.input_objects[0].fields, &ctx).is_none());
    let cycle = input_object_cycles("B", &ctx.input_objects[1].fields, &ctx).unwrap();
    assert_eq!(cycle.path, vec!["c", "b"]);
}

#[test]
fn derives_follow_the_kind_of_the_union() {
    let asked = vec!["Debug".to_string()];
    assert_eq!(additional_derives(&asked, UnionKind::Record { copy: false }), vec!["Debug", "Clone"]);
    assert_eq!(additional_derives(&asked, UnionKind::Record { copy: true }), vec!["Debug", "Clone", "Copy"]);
    assert_eq!(
        additional_derives(&Vec::new(), UnionKind::Id),
        vec!["Clone", "Copy", "PartialEq", "Eq", "PartialOrd", "Ord", "Hash"]
    );
    assert_eq!(additional_derives(&Vec::new(), UnionKind::BitpackedId).len(), 7);
    assert!(allow_unused("(crate)"));
    assert!(!allow_unused(""));
}

#[test]
fn variant_methods_are_named_in_snake_case() {
    let id = VariantContext {
        name: "InputObject".to_string(),
        value: Some(StorageType { name: "InputObjectId".to_string(), is_copy: true, is_id: true }),
    };
    let methods = variant_methods(&id);
    assert_eq!(methods.is_variant, "is_input_object");
    let getter = methods.as_variant.unwrap();
    assert_eq!(getter.name, "as_input_object");
    assert_eq!(getter.ty, "InputObjectId");
    assert!(getter.by_value);
    assert_eq!(getter.binding, "id");
    assert!(has_from_impl(&id));

    let record = VariantContext {
        name: "FieldSet".to_string(),
        value: Some(StorageType { name: "FieldSetRecord".to_string(), is_copy: false, is_id: false }),
    };
    let getter = variant_methods(&record).as_variant.unwrap();
    assert!(!getter.by_value);
    assert_eq!(getter.binding, "item");

    let copied = VariantContext {
        name: "Flag".to_string(),
        value: Some(StorageType { name: "bool".to_string(), is_copy: true, is_id: false }),
    };
    assert_eq!(variant_methods(&copied).as_variant.unwrap().binding, "item");

    let unit = VariantContext { name: "Unknown".to_string(), value: None };
    let methods = variant_methods(&unit);
    assert_eq!(methods.is_variant, "is_unknown");
    assert!(methods.as_variant.is_none());
    assert!(!has_from_impl(&unit));
}

#[test]
fn arguments_and_the_source_of_the_configuration() {
    let args = Args::new();
    assert_eq!(args.config, "./grafbase.toml");
    assert_eq!(args.schema, "./federated.graphql");
    assert_eq!(args.log_level(), "info");
    assert_eq!(args.log_style(), LogStyle::Text);
    assert!(!args.hot_reload());
    assert_eq!(args.config_path(), Some("./grafbase.toml"));
    assert!(args.graph_ref().is_none());
    assert!(matches!(args.fetch_method(), GraphLoader::FromSchemaFile { path } if path == "./federated.graphql"));
    assert!(matches!(args.config(ConfigRead::NotFound), Ok(ConfigSource::Default)));
    assert!(matches!(args.config(ConfigRead::Content("[graph]".to_string())), Ok(ConfigSource::Parse(text)) if text == "[graph]"));
    assert_eq!(
        args.config(ConfigRead::Failed("permission denied".to_string())).unwrap_err(),
        "error loading config file: permission denied"
    );
}

#[test]
fn deleted_rows_are_counted() {
    assert_eq!(statement(true), DeleteStatement::Returning);
    assert_eq!(statement(false), DeleteStatement::CountOnly);
    assert_eq!(row_count(DeleteAnswer::Rows { count: 1, first_is_null: false }), 1);
    assert_eq!(row_count(DeleteAnswer::Rows { count: 3, first_is_null: false }), 1);
    assert_eq!(row_count(DeleteAnswer::Rows { count: 1, first_is_null: true }), 0);
    assert_eq!(row_count(DeleteAnswer::Rows { count: 0, first_is_null: false }), 0);
    assert_eq!(row_count(DeleteAnswer::Affected(7)), 7);
}

#[test]
fn retry_budget_is_taken_from_the_configuration() {
    let config = GatewayRetryConfig {
        enabled: true,
        min_per_second: Some(3),
        ttl_ms: Some(1500),
        retry_percent_bits: Some(0.2f32.to_bits()),
        retry_mutations: true,
    };
    let retry = RetryConfig::from(config);
    assert_eq!(retry.min_per_second, Some(3));
    assert_eq!(retry.ttl_ms, Some(1500));
    assert_eq!(retry.retry_percent_bits.map(f32::from_bits), Some(0.2));
    assert!(retry.retry_mutations);
}

#[test]
fn build_errors_have_messages() {
    assert_eq!(
        BuildError::InvalidUrl { url: "x".to_string(), err: "relative URL without a base".to_string() }.message(),
        "Invalid URL 'x': relative URL without a base"
    );
    assert_eq!(
        BuildError::ExtensionDirectiveArgumentsError {
            location: "User.name".to_string(),
            extension_id: "auth-1.0.0".to_string(),
            err: "missing".to_string()
        }
        .message(),
        "At User.name for the extension 'auth-1.0.0': missing"
    );
    assert_eq!(
        BuildError::UnknownExtensionDirectiveArgument {
            id: "auth".to_string(),
            directive: "scope".to_string(),
            argument: "x".to_string()
        }
        .message(),
        "Unknown argument 'x' for extension directive 'scope' from 'auth'"
    );
    assert_eq!(
        BuildError::MissingGraphQLDefinitions { id: "auth".to_string(), directive: "scope".to_string() }.message(),
        "Extension 'auth' does not define any GraphQL definitions, but a directive 'scope' was found"
    );
    assert_eq!(BuildError::UnsupportedExtension { id: "a".to_string() }.message(), "Unsupported extension: a");
    assert_eq!(BuildError::GraphFromSdlError("bad sdl".to_string()).message(), "bad sdl");
    assert_eq!(
        BuildError::DefaultValueCoercionError { name: "n".to_string(), err: "e".to_string() }.message(),
        "An input value named 'n' has an invalid default value: e"
    );
    assert_eq!(
        BuildError::RequiredFieldArgumentCoercionError { location: "l".to_string(), err: "e".to_string() }.message(),
        "At l, a required field argument is invalid: e"
    );
    assert_eq!(
        BuildError::CouldNotLoadExtension { url: "u".to_string(), err: "e".to_string() }.message(),
        "Could not load extension at 'u': e"
    );
    assert_eq!(
        BuildError::CouldNotParseExtension { id: "i".to_string(), err: "e".to_string() }.message(),
        "Could not parse extension 'i' GraphQL definitions: e"
    );
    assert_eq!(
        BuildError::UnknownExtensionDirective { id: "i".to_string(), directive: "d".to_string() }.message(),
        "Unknown extension directive 'd' for extension 'i'"
    );
}

fn facts() -> RequestFacts {
    RequestFacts {
        client: Some(Client { name: "web".to_string(), version: None }),
        url_scheme: Some("https".to_string()),
        path: "/graphql".to_string(),
        version: "HTTP/2.0".to_string(),
        method: "POST".to_string(),
    }
}

#[test]
fn requests_are_measured_under_the_route_of_the_layer() {
    let layer = TelemetryLayer::new_from_global_meter_provider(Some("127.0.0.1:4000".to_string()));
    assert!(layer.0.route.is_none());
    let service = layer.layer(());
    let attributes = service.attributes(facts(), 200, Some("HIT".to_string()));
    assert_eq!(attributes.route.as_deref(), Some("/graphql"));
    assert_eq!(attributes.listen_address.as_deref(), Some("127.0.0.1:4000"));
    assert_eq!(attributes.status_code, 200);
    assert_eq!(attributes.cache_status.as_deref(), Some("HIT"));
    assert_eq!(attributes.method.as_deref(), Some("POST"));
    assert!(!attributes.has_graphql_errors);

    let layer = layer.with_route("/api".to_string());
    assert_eq!(layer.0.listen_address.as_deref(), Some("127.0.0.1:4000"));
    let service = layer.layer(());
    assert!(std::sync::Arc::ptr_eq(&service.layer, &layer.0));
    assert_eq!(service.attributes(facts(), 200, None).route.as_deref(), Some("/api"));
    let failed = service.failure_attributes(facts());
    assert_eq!(failed.status_code, 500);
    assert!(failed.cache_status.is_none());
}

#[test]
fn requests_with_subscriptions_are_not_measured() {
    let service = TelemetryLayer::new_from_global_meter_provider(None).layer(());
    let attributes = service.attributes(facts(), 200, None);
    let recorded = service.with_execution(attributes, &vec![OperationType::Query, OperationType::Mutation], 2).unwrap();
    assert!(recorded.has_graphql_errors);
    assert_eq!(recorded.status_code, 200);
    let attributes = service.attributes(facts(), 200, None);
    assert!(!service.with_execution(attributes, &Vec::new(), 0).unwrap().has_graphql_errors);
    let attributes = service.attributes(facts(), 200, None);
    assert!(service.with_execution(attributes, &vec![OperationType::Query, OperationType::Subscription], 0).is_none());
}

#[test]
fn telemetry_parts_follow_the_configuration() {
    assert_eq!(new_noop(), OtelTelemetry { tracer: false, meter_provider: false, logger: false });
    let mut setup = TelemetrySetup {
        service_name: "gateway".to_string(),
        resource_attributes: vec![("env".to_string(), "prod".to_string())],
        tracing_exporters_enabled: true,
        logs_exporters_enabled: false,
    };
    assert_eq!(build(&setup, true), OtelTelemetry { tracer: true, meter_provider: true, logger: false });
    setup.logs_exporters_enabled = true;
    setup.tracing_exporters_enabled = false;
    assert_eq!(build(&setup, true), OtelTelemetry { tracer: false, meter_provider: true, logger: true });
    assert_eq!(build(&setup, false), OtelTelemetry { tracer: false, meter_provider: true, logger: false });
    assert_eq!(
        resource_attributes(&setup),
        vec![("env".to_string(), "prod".to_string()), ("service.name".to_string(), "gateway".to_string())]
    );
}

#[test]
fn an_enum_is_planned_for_a_union() {
    let union = Union { enum_name: "Definition".to_string(), kind: UnionKind::Id, derive: vec!["Debug".to_string()] };
    let variants = vec![
        VariantContext {
            name: "InputObject".to_string(),
            value: Some(StorageType { name: "InputObjectId".to_string(), is_copy: true, is_id: true }),
        },
        VariantContext { name: "Unknown".to_string(), value: None },
    ];
    let generated = generate_enum("(crate)", &union, &variants);
    assert_eq!(generated.enum_name, "Definition");
    assert_eq!(generated.derives.len(), 8);
    assert_eq!(generated.derives[0], "Debug");
    assert_eq!(generated.variants, vec!["InputObject(InputObjectId)", "Unknown"]);
    assert_eq!(generated.from_impls, vec![true, false]);
    assert_eq!(generated.methods[0].is_variant, "is_input_object");
    assert_eq!(generated.methods[1].is_variant, "is_unknown");
    assert!(generated.methods[1].as_variant.is_none());
    assert!(generated.allow_unused);
    assert!(!generate_enum("", &union, &Vec::new()).allow_unused);
}

#[test]
fn cursors_are_read_from_variables() {
    assert_eq!(VariableResolveDefinition::expect_opt_cursor(CursorText::Parsed(7u8), 1, 2).unwrap(), Some(7));
    assert_eq!(VariableResolveDefinition::expect_opt_cursor(CursorText::<u8>::Absent, 1, 2).unwrap(), None);
    let error = VariableResolveDefinition::expect_opt_cursor(CursorText::<u8>::Invalid, 1, 2).unwrap_err();
    assert_eq!(error.message, "Invalid Cursor");
    assert_eq!((error.line, error.column), (1, 2));
}

#[test]
fn snake_case_puts_an_underscore_before_each_capital_but_the_first() {
    let name = |name: &str| {
        variant_methods(&VariantContext { name: name.to_string(), value: None }).is_variant
    };
    assert_eq!(name(""), "is_");
    assert_eq!(name("A"), "is_a");
    assert_eq!(name("a"), "is_a");
    assert_eq!(name("HTTPHeader"), "is_h_t_t_p_header");
    assert_eq!(name("already_snake"), "is_already_snake");
    assert_eq!(name("with9Digits"), "is_with9_digits");
    assert_eq!(name("\u{c9}cole"), "is_\u{c9}cole");
}
