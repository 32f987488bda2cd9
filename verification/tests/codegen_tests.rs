use nodal::attrs::{
    apply_endpoint_attr, apply_stream_attr, parse_service_args, AttrError, MetaArg, ServiceArgs,
    StreamAttrs,
};
use nodal::codegen::{plan_method, plan_service, AttrKind, AttrModel, MethodModel};
use nodal::subject::SubjectExpr;
use nodal::types::{extract_request_type, extract_response_type, GenericArgModel, TypeModel};

fn lit(key: &str, value: &str) -> MetaArg {
    MetaArg {
        key: key.to_string(),
        has_value: true,
        string_value: Some(value.to_string()),
        path_value: None,
        type_value: None,
    }
}

fn path(key: &str, value: &str) -> MetaArg {
    MetaArg {
        key: key.to_string(),
        has_value: true,
        string_value: None,
        path_value: Some(value.to_string()),
        type_value: Some(value.to_string()),
    }
}

fn ty(key: &str, value: &str) -> MetaArg {
    MetaArg {
        key: key.to_string(),
        has_value: true,
        string_value: None,
        path_value: None,
        type_value: Some(value.to_string()),
    }
}

fn plain(name: &str) -> TypeModel {
    TypeModel::Path { last: Some(name.to_string()), generics: None, text: name.to_string() }
}

fn generic(name: &str, args: Vec<TypeModel>, text: &str) -> TypeModel {
    TypeModel::Path {
        last: Some(name.to_string()),
        generics: Some(args.into_iter().map(GenericArgModel::Type).collect()),
        text: text.to_string(),
    }
}

fn result_of_response(inner: &str) -> TypeModel {
    generic(
        "Result",
        vec![generic("Response", vec![plain(inner)], &format!("Response<{}>", inner)), plain("Error")],
        &format!("Result<Response<{}>, Error>", inner),
    )
}

fn unit_result() -> TypeModel {
    generic(
        "Result",
        vec![TypeModel::Other { text: "()".to_string() }, plain("Error")],
        "Result<(), Error>",
    )
}

fn endpoint_attr(subject: &str) -> AttrModel {
    AttrModel { kind: AttrKind::Endpoint, args: vec![lit("subject", subject)] }
}

fn method(
    name: &str,
    attrs: Vec<AttrModel>,
    input_count: usize,
    body_type: Option<TypeModel>,
    output: Option<TypeModel>,
) -> MethodModel {
    MethodModel { name: name.to_string(), attrs, input_count, body_type, output, is_async: true }
}

#[test]
fn service_args_read_name_and_version() {
    let args = parse_service_args(&vec![lit("name", "weather.{id}"), lit("version", "0.1.0")])
        .unwrap();
    assert_eq!(args.name, "weather.{id}");
    assert_eq!(args.version, "0.1.0");
}

#[test]
fn service_args_errors() {
    assert!(matches!(
        parse_service_args(&vec![lit("name", "a"), lit("colour", "red")]),
        Err(AttrError::Unsupported(k)) if k == "colour"
    ));
    assert!(matches!(
        parse_service_args(&vec![ty("name", "u8")]),
        Err(AttrError::ExpectedString(k)) if k == "name"
    ));
    // a bare `name` or `version` lacks its `=`
    let bare = |key: &str| MetaArg {
        key: key.to_string(),
        has_value: false,
        string_value: None,
        path_value: None,
        type_value: None,
    };
    assert!(matches!(
        parse_service_args(&vec![bare("name"), lit("version", "1")]),
        Err(AttrError::ExpectedEquals(k)) if k == "name"
    ));
    assert!(matches!(
        parse_service_args(&vec![lit("name", "a"), bare("version")]),
        Err(AttrError::ExpectedEquals(k)) if k == "version"
    ));
    // any other bare item is unsupported
    assert!(matches!(
        parse_service_args(&vec![bare("colour")]),
        Err(AttrError::Unsupported(k)) if k == "colour"
    ));
    assert!(matches!(
        parse_service_args(&vec![lit("version", "1")]),
        Err(AttrError::MissingName)
    ));
    assert!(matches!(
        parse_service_args(&vec![lit("name", "a")]),
        Err(AttrError::MissingVersion)
    ));
    // the last of repeated items wins
    let args = parse_service_args(&vec![lit("name", "a"), lit("version", "1"), lit("name", "b")])
        .unwrap();
    assert_eq!(args.name, "b");
}

#[test]
fn endpoint_attr_stops_at_first_unsupported_item() {
    assert_eq!(apply_endpoint_attr(None, &vec![lit("subject", "echo")]), Some("echo".to_string()));
    assert_eq!(
        apply_endpoint_attr(None, &vec![lit("subject", "a"), lit("other", "x"), lit("subject", "b")]),
        Some("a".to_string())
    );
    assert_eq!(apply_endpoint_attr(None, &vec![lit("other", "x"), lit("subject", "b")]), None);
    assert_eq!(
        apply_endpoint_attr(Some("kept".to_string()), &vec![ty("subject", "u8")]),
        Some("kept".to_string())
    );
}

#[test]
fn stream_attr_reads_each_item_form() {
    let empty = StreamAttrs { name: None, subject: None, storage: None, message: None };
    let attrs = apply_stream_attr(
        empty,
        &vec![
            lit("name", "TEMPERATURE"),
            lit("subject", "temperature"),
            path("storage", "StorageType::Memory"),
            ty("message", "Temperature"),
        ],
    );
    assert_eq!(attrs.name.as_deref(), Some("TEMPERATURE"));
    assert_eq!(attrs.subject.as_deref(), Some("temperature"));
    assert_eq!(attrs.storage.as_deref(), Some("StorageType::Memory"));
    assert_eq!(attrs.message.as_deref(), Some("Temperature"));

    let empty = StreamAttrs { name: None, subject: None, storage: None, message: None };
    let stopped = apply_stream_attr(empty, &vec![lit("name", "N"), lit("bogus", "x"), lit("subject", "s")]);
    assert_eq!(stopped.name.as_deref(), Some("N"));
    assert_eq!(stopped.subject, None);
}

#[test]
fn response_and_request_types() {
    assert_eq!(extract_response_type(&result_of_response("f64")), Some("f64".to_string()));
    assert_eq!(extract_response_type(&unit_result()), None);
    assert_eq!(extract_response_type(&plain("Result")), None);
    assert_eq!(extract_response_type(&TypeModel::Other { text: "impl Fn()".to_string() }), None);
    let req = generic("Request", vec![plain("SetInterval")], "Request<SetInterval>");
    assert_eq!(extract_request_type(&req), Some("SetInterval".to_string()));
    assert_eq!(extract_request_type(&plain("Bytes")), None);
}

fn weather_methods() -> Vec<MethodModel> {
    vec![
        method(
            "temperature",
            vec![AttrModel {
                kind: AttrKind::Stream,
                args: vec![
                    lit("name", "TEMPERATURE"),
                    lit("subject", "temperature"),
                    path("storage", "StorageType::Memory"),
                    ty("message", "Temperature"),
                ],
            }],
            1,
            None,
            Some(unit_result()),
        ),
        method(
            "wind_speed",
            vec![AttrModel { kind: AttrKind::Other, args: vec![] }, endpoint_attr("wind_speed")],
            1,
            None,
            Some(result_of_response("f64")),
        ),
        method(
            "set_interval",
            vec![endpoint_attr("set_interval")],
            2,
            Some(generic("Request", vec![plain("SetInterval")], "Request<SetInterval>")),
            Some(result_of_response("()")),
        ),
        method("helper", vec![], 0, None, None),
    ]
}

#[test]
fn weather_service_plan() {
    let args = ServiceArgs { name: "weather.{location}.{id}".to_string(), version: "0.1.0".to_string() };
    let plan = plan_service("WeatherService", &args, &weather_methods());
    assert_eq!(plan.name, "weather");
    assert_eq!(plan.version, "0.1.0");
    assert_eq!(plan.params, vec!["location", "id"]);
    assert_eq!(plan.ext_trait, "WeatherServiceExt");
    assert_eq!(plan.client, "WeatherServiceClient");
    assert_eq!(
        plan.prefix_expr,
        SubjectExpr::Format {
            template: "{}.{}".to_string(),
            args: vec!["location".to_string(), "id".to_string()]
        }
    );

    assert_eq!(plan.methods.len(), 4);
    assert!(plan.methods[0].rewrite_output);
    assert_eq!(plan.methods[1].keep_attrs, vec![true, false]);
    assert!(!plan.methods[3].rewrite_output);

    assert_eq!(plan.endpoints.len(), 2);
    let wind = &plan.endpoints[0];
    assert_eq!(wind.method, "wind_speed");
    assert_eq!(wind.handler, "WindSpeedHandler");
    assert!(!wind.has_body);
    assert_eq!(wind.request_type, "()");
    assert_eq!(wind.response_type, "f64");
    assert_eq!(
        wind.subject_expr,
        SubjectExpr::Format {
            template: "{}.{}.wind_speed".to_string(),
            args: vec!["location".to_string(), "id".to_string()]
        }
    );
    assert_eq!(
        wind.client_subject_expr,
        SubjectExpr::Format {
            template: "weather.{}.{}.wind_speed".to_string(),
            args: vec!["location".to_string(), "id".to_string()]
        }
    );
    let set = &plan.endpoints[1];
    assert_eq!(set.handler, "SetIntervalHandler");
    assert!(set.has_body);
    assert_eq!(set.request_type, "SetInterval");
    assert_eq!(set.response_type, "()");

    assert_eq!(plan.streams.len(), 1);
    let temp = &plan.streams[0];
    assert_eq!(temp.handler, "TemperatureStreamHandler");
    assert_eq!(temp.name, "TEMPERATURE");
    assert_eq!(temp.subject, "temperature");
    assert_eq!(temp.storage.as_deref(), Some("StorageType::Memory"));
    assert_eq!(temp.message.as_deref(), Some("Temperature"));
    // the client's method for the stream yields the message type
    assert_eq!(temp.item_type, "Temperature");
}

#[test]
fn stream_without_message_yields_unit_items() {
    let m = method(
        "ticks",
        vec![AttrModel { kind: AttrKind::Stream, args: vec![lit("name", "T"), lit("subject", "t")] }],
        1,
        None,
        Some(unit_result()),
    );
    let args = ServiceArgs { name: "svc".to_string(), version: "1".to_string() };
    let plan = plan_service("Svc", &args, &vec![m]);
    assert_eq!(plan.streams[0].message, None);
    assert_eq!(plan.streams[0].item_type, "()");
}

#[test]
fn plain_service_plan_uses_literals() {
    let args = ServiceArgs { name: "test_service".to_string(), version: "0.1.2".to_string() };
    let methods = vec![method(
        "response_only",
        vec![endpoint_attr("response_only")],
        1,
        None,
        Some(result_of_response("()")),
    )];
    let plan = plan_service("TestService", &args, &methods);
    assert!(plan.params.is_empty());
    assert_eq!(plan.endpoints[0].subject_expr, SubjectExpr::Literal("response_only".to_string()));
    assert_eq!(
        plan.endpoints[0].client_subject_expr,
        SubjectExpr::Literal("test_service.response_only".to_string())
    );
    assert!(plan.streams.is_empty());
}

#[test]
fn stream_and_endpoint_on_one_method() {
    // the endpoint reads the return type as written
    let m = method(
        "both",
        vec![
            AttrModel { kind: AttrKind::Stream, args: vec![lit("name", "B"), lit("subject", "b")] },
            endpoint_attr("b"),
        ],
        1,
        None,
        Some(result_of_response("u64")),
    );
    let args = ServiceArgs { name: "svc".to_string(), version: "1".to_string() };
    let plan = plan_service("Svc", &args, &vec![m]);
    assert_eq!(plan.endpoints[0].response_type, "u64");
    assert_eq!(plan.streams.len(), 1);
    assert!(plan.methods[0].rewrite_output);
}

#[test]
fn method_without_name_or_subject_is_no_stream() {
    let m = method(
        "half",
        vec![AttrModel { kind: AttrKind::Stream, args: vec![lit("name", "H")] }],
        1,
        None,
        Some(unit_result()),
    );
    let p = plan_method(&m);
    assert_eq!(p.keep_attrs, vec![false]);
    assert!(!p.rewrite_output);
    let args = ServiceArgs { name: "svc".to_string(), version: "1".to_string() };
    assert!(plan_service("Svc", &args, &vec![m]).streams.is_empty());
}

#[test]
fn attr_error_texts() {
    assert_eq!(AttrError::Unsupported("x".to_string()).to_string(), "unsupported service attribute");
    assert_eq!(AttrError::ExpectedString("name".to_string()).to_string(), "expected string literal");
    assert_eq!(AttrError::ExpectedEquals("name".to_string()).to_string(), "expected `=`");
    assert_eq!(AttrError::MissingName.to_string(), "service attribute requires 'name' parameter");
    assert_eq!(AttrError::MissingVersion.to_string(), "service attribute requires 'version' parameter");
    assert!(AttrError::MissingName.is_missing_item());
    assert!(!AttrError::Unsupported("x".to_string()).is_missing_item());
}
