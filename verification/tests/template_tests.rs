use nodal::template::{extract_template_params, service_base_name};

#[test]
fn test_extract_template_params_none() {
    assert_eq!(extract_template_params("wind_speed"), Vec::<String>::new());
}

#[test]
fn test_extract_template_params_single() {
    assert_eq!(extract_template_params("weather.{id}"), vec!["id"]);
}

#[test]
fn test_extract_template_params_multiple() {
    assert_eq!(
        extract_template_params("weather.{id}.{zone}"),
        vec!["id", "zone"]
    );
}

#[test]
fn test_extract_template_params_empty_braces() {
    assert_eq!(extract_template_params("weather.{}"), Vec::<String>::new());
}

#[test]
fn test_extract_template_params_mixed() {
    assert_eq!(
        extract_template_params("prefix.{param1}.middle.{param2}.suffix"),
        vec!["param1", "param2"]
    );
}

#[test]
fn extract_template_params_unclosed_brace() {
    assert_eq!(extract_template_params("weather.{id"), vec!["id"]);
}

#[test]
fn extract_template_params_nested_open_brace() {
    assert_eq!(extract_template_params("a.{b{c}.d"), vec!["b{c"]);
}

#[test]
fn service_base_name_before_first_dot() {
    assert_eq!(service_base_name("weather.{location}.{id}"), "weather");
    assert_eq!(service_base_name("test_service"), "test_service");
    assert_eq!(service_base_name(".x"), "");
    assert_eq!(service_base_name(""), "");
}

#[test]
fn template_round_trip() {
    // a template written from a base and parameters reads back as them
    let base = "weather";
    let params = ["location", "id"];
    let mut template = base.to_string();
    for p in params {
        template.push_str(&format!(".{{{}}}", p));
    }
    assert_eq!(template, "weather.{location}.{id}");
    assert_eq!(service_base_name(&template), base);
    assert_eq!(extract_template_params(&template), params.to_vec());
}
