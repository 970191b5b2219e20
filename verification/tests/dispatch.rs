use ckanaction::{decode_response, Body, CkanError, IntoJson, Method, Payload, CKAN};
use std::path::PathBuf;

fn parsed(text: &str) -> serde_json::Value {
    serde_json::from_str(text).unwrap()
}

fn json_of(payload: Payload) -> serde_json::Value {
    match payload {
        Payload::Json(v) => v,
        other => panic!("a JSON payload was expected, not {other:?}"),
    }
}

#[test]
fn endpoint_joins_base_and_action() {
    let ckan = CKAN::new("https://demo.ckan.org", None);
    assert_eq!(
        ckan.endpoint("package_create"),
        "https://demo.ckan.org/api/3/action/package_create"
    );
    assert_eq!(CKAN::new("", None).endpoint(""), "/api/3/action/");
}

#[test]
fn new_keeps_url_and_token() {
    let ckan = CKAN::new("http://localhost:5000", Some("CKAN_API_TOKEN".to_string()));
    assert_eq!(ckan.url(), "http://localhost:5000");
    assert_eq!(ckan.token(), Some("CKAN_API_TOKEN"));
    assert_eq!(CKAN::new("http://localhost:5000", None).token(), None);
}

#[test]
fn get_plans_a_request_without_payload() {
    let ckan = CKAN::new("http://localhost:5000", None);
    let req = ckan.get(ckan.endpoint("status_show"));
    assert_eq!(req.method, Method::Get);
    assert_eq!(req.url, "http://localhost:5000/api/3/action/status_show");
    assert_eq!(req.authorization, None);
    assert!(matches!(req.payload, Payload::Empty));
}

#[test]
fn token_is_presented_verbatim_on_get_and_post() {
    let token = "Bearer  abc.def \u{e9}";
    let ckan = CKAN::new("http://localhost:5000", Some(token.to_string()));
    assert_eq!(ckan.status_show().authorization.as_deref(), Some(token));
    assert_eq!(ckan.license_list().authorization.as_deref(), Some(token));
    assert_eq!(
        ckan.package_list(None, None).authorization.as_deref(),
        Some(token)
    );
    let upload = ckan
        .post(
            ckan.endpoint("resource_create"),
            None,
            Some(PathBuf::from("data.csv")),
        )
        .unwrap();
    assert_eq!(upload.authorization.as_deref(), Some(token));
}

#[test]
fn without_token_no_authorization_is_planned() {
    let ckan = CKAN::new("http://localhost:5000", None);
    assert_eq!(ckan.status_show().authorization, None);
    assert_eq!(ckan.package_list(Some(1), None).authorization, None);
    let upload = ckan
        .post(
            ckan.endpoint("resource_create"),
            None,
            Some(PathBuf::from("data.csv")),
        )
        .unwrap();
    assert_eq!(upload.authorization, None);
}

#[test]
fn post_sends_the_body_as_one_json_object() {
    let ckan = CKAN::new("http://localhost:5000", Some("secret".to_string()));
    let mut body = Body::new();
    body.opsert("limit", Some(10u32));
    body.opsert("offset", Some(5u32));
    body.opsert("page", None::<u32>);
    let req = ckan
        .post(ckan.endpoint("package_list"), Some(body), None)
        .unwrap();
    assert_eq!(req.method, Method::Post);
    assert_eq!(req.url, "http://localhost:5000/api/3/action/package_list");
    assert_eq!(req.authorization, Some("secret".to_string()));
    assert_eq!(json_of(req.payload), parsed(r#"{"limit":10,"offset":5}"#));
}

#[test]
fn post_without_body_sends_null() {
    let ckan = CKAN::new("http://localhost:5000", None);
    let req = ckan.post(ckan.endpoint("license_list"), None, None).unwrap();
    assert_eq!(req.method, Method::Post);
    assert_eq!(json_of(req.payload), serde_json::Value::Null);
}

#[test]
fn post_with_file_plans_a_form() {
    let ckan = CKAN::new("http://localhost:5000", None);
    let mut body = Body::new();
    body.insert("package_id", "my-dataset".to_string());
    body.opsert("name", Some("Data \"2024\"".to_string()));
    body.opsert("description", None::<String>);
    let req = ckan
        .post(
            ckan.endpoint("resource_create"),
            Some(body),
            Some(PathBuf::from("/tmp/data.csv")),
        )
        .unwrap();
    assert_eq!(req.method, Method::Post);
    match req.payload {
        Payload::Multipart { mut fields, upload } => {
            fields.sort();
            assert_eq!(
                fields,
                vec![
                    ("name".to_string(), "Data \"2024\"".to_string()),
                    ("package_id".to_string(), "my-dataset".to_string()),
                ]
            );
            assert_eq!(upload, PathBuf::from("/tmp/data.csv"));
        }
        other => panic!("a form was expected, not {other:?}"),
    }
}

#[test]
fn post_with_file_and_no_body_plans_a_form_without_text_parts() {
    let ckan = CKAN::new("http://localhost:5000", None);
    let req = ckan
        .post(ckan.endpoint("resource_create"), None, Some(PathBuf::from("a.bin")))
        .unwrap();
    match req.payload {
        Payload::Multipart { fields, upload } => {
            assert!(fields.is_empty());
            assert_eq!(upload, PathBuf::from("a.bin"));
        }
        other => panic!("a form was expected, not {other:?}"),
    }
}

#[test]
fn post_with_file_refuses_a_field_that_is_no_string() {
    let ckan = CKAN::new("http://localhost:5000", None);
    let mut body = Body::new();
    body.insert("package_id", "my-dataset".to_string());
    body.insert("size", 10i32);
    let r = ckan.post(
        ckan.endpoint("resource_create"),
        Some(body),
        Some(PathBuf::from("data.csv")),
    );
    assert!(matches!(r, Err(CkanError::NotText)));
}

#[test]
fn decode_response_returns_the_value_as_it_is() {
    let v = decode_response(br#"{"success": false, "error": {"message": "Not found"}}"#).unwrap();
    assert_eq!(
        v,
        parsed(r#"{"success":false,"error":{"message":"Not found"}}"#)
    );
    assert_eq!(v["success"], serde_json::Value::Bool(false));
    assert_eq!(decode_response(b" [1, 2.5, null] ").unwrap(), parsed("[1,2.5,null]"));
}

#[test]
fn decode_response_refuses_what_is_no_json() {
    assert!(matches!(
        decode_response(b"<html>Bad gateway</html>"),
        Err(CkanError::Decode(_))
    ));
    assert!(matches!(decode_response(b""), Err(CkanError::Decode(_))));
    assert!(matches!(
        decode_response(b"{\"success\": true"),
        Err(CkanError::Decode(_))
    ));
    assert!(matches!(
        decode_response(&[0x22, 0xff, 0xfe, 0x22]),
        Err(CkanError::Decode(_))
    ));
    assert!(matches!(
        decode_response(b"{} trailing"),
        Err(CkanError::Decode(_))
    ));
}

#[test]
fn empty_body_is_the_empty_object() {
    assert_eq!(Body::new().into_json(), parsed("{}"));
}
