use proc_macro2::TokenStream;
use std::str::FromStr;
use swagg::path::{ContentType, Path, ResponseEnum, StatusVariant};
use swagg::printer::GeneratedModule;
use swagg::status::ResponseStatus;
use swagg::{print_api, to_string, ApiInfo, Error};

fn info_of(api: openapiv3::OpenAPI) -> ApiInfo {
    ApiInfo { title: api.info.title, description: api.info.description }
}

fn parse_json(source: &str) -> Option<ApiInfo> {
    serde_json::from_str::<openapiv3::OpenAPI>(source).ok().map(info_of)
}

fn parse_yaml(source: &str) -> Option<ApiInfo> {
    serde_yaml::from_str::<openapiv3::OpenAPI>(source).ok().map(info_of)
}

const JSON: &str = r#"{
  "openapi": "3.0.0",
  "info": { "title": "Pet Store", "description": "Pets \"R\" us", "version": "1.0.0" },
  "paths": {}
}"#;

const JSON_WITHOUT_DESCRIPTION: &str =
    r#"{ "openapi": "3.0.0", "info": { "title": "Pet Store", "version": "1.0.0" }, "paths": {} }"#;

const YAML: &str = "openapi: 3.0.0
info:
  title: Pet Store
  description: Pets \"R\" us
  version: 1.0.0
paths: {}
";

fn session_path() -> Path {
    Path {
        name: "sessionCreate".to_string(),
        response: ResponseEnum {
            responses: vec![StatusVariant {
                status: ResponseStatus::Created,
                response_type_name: Some("SessionCreated".to_string()),
                description: Some("Session is open".to_string()),
                content_type: Some(ContentType::Json),
                x_variant_name: None,
            }],
        },
    }
}

#[test]
fn json_document_gives_its_documentation() {
    assert_eq!(
        to_string(parse_json(JSON)),
        Ok("#![doc = \"Pet Store\"]\n#![doc = \"\"]\n#![doc = \"Pets \\\"R\\\" us\"]\n".to_string())
    );
}

#[test]
fn yaml_document_gives_its_documentation() {
    assert_eq!(
        to_string(parse_yaml(YAML)),
        Ok("#![doc = \"Pet Store\"]\n#![doc = \"\"]\n#![doc = \"Pets \\\"R\\\" us\"]\n".to_string())
    );
}

#[test]
fn document_without_description_gives_its_title() {
    assert_eq!(
        to_string(parse_json(JSON_WITHOUT_DESCRIPTION)),
        Ok("#![doc = \"Pet Store\"]\n".to_string())
    );
}

#[test]
fn json_is_also_yaml() {
    assert_eq!(to_string(parse_yaml(JSON)), to_string(parse_json(JSON)));
}

#[test]
fn yaml_is_no_json() {
    assert_eq!(to_string(parse_json(YAML)), Err(Error::InvalidSource));
}

#[test]
fn broken_source_is_invalid() {
    for source in ["", "{", "[]", "42", "{\"openapi\": \"3.0.0\"}", "not: [closed"] {
        assert_eq!(to_string(parse_json(source)), Err(Error::InvalidSource), "{:?}", source);
        assert_eq!(to_string(parse_yaml(source)), Err(Error::InvalidSource), "{:?}", source);
    }
}

#[test]
fn document_without_title_is_invalid() {
    let source = r#"{ "openapi": "3.0.0", "info": { "version": "1.0.0" }, "paths": {} }"#;
    assert_eq!(to_string(parse_json(source)), Err(Error::InvalidSource));
}

#[test]
fn nothing_parsed_is_an_invalid_source() {
    assert_eq!(to_string(None), Err(Error::InvalidSource));
}

#[test]
fn what_was_parsed_is_written() {
    let info = ApiInfo { title: "Users".to_string(), description: None };
    assert_eq!(to_string(Some(info)), Ok("#![doc = \"Users\"]\n".to_string()));
    let info = ApiInfo { title: String::new(), description: Some("a\tb".to_string()) };
    assert_eq!(
        to_string(Some(info)),
        Ok("#![doc = \"\"]\n#![doc = \"\"]\n#![doc = \"a\\tb\"]\n".to_string())
    );
}

#[test]
fn error_has_its_message() {
    assert_eq!(Error::InvalidSource.to_string(), "OpenAPI structure cannot be parsed");
}

#[test]
fn print_api_writes_the_documentation() {
    let info = ApiInfo { title: "Users".to_string(), description: None };
    assert_eq!(print_api(info), "#![doc = \"Users\"]\n");
    let info = ApiInfo { title: "Users".to_string(), description: Some("Accounts\nand sessions".to_string()) };
    assert_eq!(
        print_api(info),
        "#![doc = \"Users\"]\n#![doc = \"\"]\n#![doc = \"Accounts\\nand sessions\"]\n"
    );
}

#[test]
fn new_document_is_empty() {
    let module = GeneratedModule::new();
    assert_eq!(module.name, None);
    assert_eq!(module.description, None);
    assert!(module.paths.is_empty());
    assert_eq!(module.print(), "");
    assert_eq!(GeneratedModule::default().print(), "");
}

#[test]
fn setters_set_one_field_each() {
    let mut module = GeneratedModule::new();
    module.paths.push(session_path());
    module.set_name("Users".to_string());
    assert_eq!(module.name, Some("Users".to_string()));
    assert_eq!(module.description, None);
    assert_eq!(module.paths.len(), 1);
    module.set_description("Accounts".to_string());
    assert_eq!(module.name, Some("Users".to_string()));
    assert_eq!(module.description, Some("Accounts".to_string()));
    assert_eq!(module.paths.len(), 1);
}

#[test]
fn description_alone_heads_the_document() {
    let mut module = GeneratedModule::new();
    module.set_description("Accounts".to_string());
    assert_eq!(module.print(), "#![doc = \"Accounts\"]\n");
}

#[test]
fn document_holds_the_modules_in_order() {
    let mut module = GeneratedModule::new();
    module.set_name("Users".to_string());
    module.paths.push(session_path());
    module.paths.push(Path { name: "ping".to_string(), response: ResponseEnum { responses: vec![] } });
    let first = session_path().print();
    let second =
        Path { name: "ping".to_string(), response: ResponseEnum { responses: vec![] } }.print();
    let text = module.print();
    assert_eq!(text, format!("#![doc = \"Users\"]\n\n{}\n{}", first, second));
    assert!(first.contains("        #[doc = \"Session is open\"] Created(responses::SessionCreated),\n"));
    assert!(TokenStream::from_str(&text).is_ok());
}

#[test]
fn document_is_written_the_same_again() {
    let mut module = GeneratedModule::new();
    module.set_name("Users".to_string());
    module.set_description("Accounts".to_string());
    module.paths.push(session_path());
    assert_eq!(module.print(), module.print());
}
