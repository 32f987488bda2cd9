use nodal::subject::{
    build_client_subject_expr, build_subject_expr, build_subject_prefix_expr, SubjectExpr,
};

fn fmt(template: &str, args: &[&str]) -> SubjectExpr {
    SubjectExpr::Format {
        template: template.to_string(),
        args: args.iter().map(|a| a.to_string()).collect(),
    }
}

/// Evaluates an expression the way `format!` would, with the given values.
fn eval(e: &SubjectExpr, values: &[&str]) -> String {
    match e {
        SubjectExpr::Literal(s) => s.clone(),
        SubjectExpr::Format { template, .. } => {
            let mut out = String::new();
            let mut rest = template.as_str();
            let mut vals = values.iter();
            while let Some(pos) = rest.find("{}") {
                out.push_str(&rest[..pos]);
                out.push_str(vals.next().unwrap());
                rest = &rest[pos + 2..];
            }
            out.push_str(rest);
            out
        }
    }
}

#[test]
fn test_build_subject_expr_no_params() {
    let subject = "wind_speed";
    let service_params: Vec<String> = vec![];

    let result = build_subject_expr(subject, &service_params);
    let expected = SubjectExpr::Literal("wind_speed".to_string());

    assert_eq!(result, expected);
}

#[test]
fn test_build_subject_expr_single_param() {
    let subject = "sensor_data";
    let service_params = vec!["id".to_string()];

    let result = build_subject_expr(subject, &service_params);
    let expected = fmt("{}.sensor_data", &["id"]);

    assert_eq!(result, expected);
}

#[test]
fn test_build_subject_expr_multiple_params() {
    let subject = "wind_speed";
    let service_params = vec!["region".to_string(), "id".to_string()];

    let result = build_subject_expr(subject, &service_params);
    let expected = fmt("{}.{}.wind_speed", &["region", "id"]);

    assert_eq!(result, expected);
}

#[test]
fn test_build_subject_expr_three_params() {
    let subject = "data";
    let service_params = vec![
        "namespace".to_string(),
        "service".to_string(),
        "id".to_string(),
    ];

    let result = build_subject_expr(subject, &service_params);
    let expected = fmt("{}.{}.{}.data", &["namespace", "service", "id"]);

    assert_eq!(result, expected);
}

#[test]
fn test_build_subject_expr_subject_with_special_chars() {
    let subject = "sensor.temperature_reading";
    let service_params = vec!["id".to_string()];

    let result = build_subject_expr(subject, &service_params);
    let expected = fmt("{}.sensor.temperature_reading", &["id"]);

    assert_eq!(result, expected);
}

#[test]
fn test_build_subject_expr_empty_subject() {
    let subject = "";
    let service_params = vec!["id".to_string()];

    let result = build_subject_expr(subject, &service_params);
    let expected = fmt("{}.", &["id"]);

    assert_eq!(result, expected);
}

#[test]
fn build_subject_prefix_expr_joins_placeholders() {
    let params = vec!["location".to_string(), "id".to_string()];
    assert_eq!(build_subject_prefix_expr(&params), fmt("{}.{}", &["location", "id"]));
    assert_eq!(build_subject_prefix_expr(&vec![]), fmt("", &[]));
    assert_eq!(
        build_subject_prefix_expr(&vec!["id".to_string()]),
        fmt("{}", &["id"])
    );
}

#[test]
fn build_client_subject_expr_includes_service_name() {
    let params = vec!["location".to_string(), "id".to_string()];
    assert_eq!(
        build_client_subject_expr("weather", "wind_speed", &params),
        fmt("weather.{}.{}.wind_speed", &["location", "id"])
    );
    assert_eq!(
        build_client_subject_expr("test_service", "echo", &vec![]),
        SubjectExpr::Literal("test_service.echo".to_string())
    );
}

#[test]
fn client_subject_matches_service_subject() {
    let params = vec!["location".to_string(), "id".to_string()];
    let values = ["virginia", "abc"];
    let client = eval(&build_client_subject_expr("weather", "wind_speed", &params), &values);
    let server = eval(&build_subject_expr("wind_speed", &params), &values);
    assert_eq!(server, "virginia.abc.wind_speed");
    assert_eq!(client, nodal::service::endpoint_subject("weather", &server));
    assert_eq!(client, "weather.virginia.abc.wind_speed");
}

#[test]
fn subject_prefix_evaluates_to_joined_values() {
    let params = vec!["location".to_string(), "id".to_string()];
    assert_eq!(
        eval(&build_subject_prefix_expr(&params), &["virginia", "abc"]),
        "virginia.abc"
    );
}

#[test]
fn build_subject_expr_binds_named_params() {
    // a subject written with its parameters, from the service's base name
    let params = vec!["id".to_string()];
    assert_eq!(build_subject_expr("weather.{id}.wind_speed", &params), fmt("{}.wind_speed", &["id"]));
    let params = vec!["location".to_string(), "id".to_string()];
    assert_eq!(
        build_subject_expr("weather.{location}.{id}.wind_speed", &params),
        fmt("{}.{}.wind_speed", &["location", "id"])
    );
    // without a base segment nothing is dropped
    assert_eq!(build_subject_expr("{id}.raw", &vec!["id".to_string()]), fmt("{}.raw", &["id"]));
    // empty braces leave nothing
    assert_eq!(build_subject_expr("svc.{}x", &vec!["id".to_string()]), fmt("x", &[]));
}

#[test]
fn client_subject_for_named_params() {
    let params = vec!["id".to_string()];
    let client = build_client_subject_expr("weather", "weather.{id}.wind_speed", &params);
    assert_eq!(client, fmt("weather.{}.wind_speed", &["id"]));
    let server = eval(&build_subject_expr("weather.{id}.wind_speed", &params), &["7"]);
    assert_eq!(eval(&client, &["7"]), nodal::service::endpoint_subject("weather", &server));
    assert_eq!(server, "7.wind_speed");
}
