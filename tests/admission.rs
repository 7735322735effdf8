use trow::admission::{
    admission_query, admission_response, extract_images, AdmissionRequest, JsonValue,
    ValidationError, MAX_NESTING,
};

fn s(x: &str) -> JsonValue {
    JsonValue::String(x.to_string())
}

fn obj(fields: Vec<(&str, JsonValue)>) -> JsonValue {
    JsonValue::Object(fields.into_iter().map(|(k, v)| (k.to_string(), v)).collect())
}

fn example() -> JsonValue {
    obj(vec![
        ("a", obj(vec![("image", s("nginx:latest"))])),
        (
            "b",
            JsonValue::Array(vec![
                obj(vec![("image", s("redis"))]),
                obj(vec![("x", JsonValue::Number)]),
            ]),
        ),
    ])
}

#[test]
fn images_in_traversal_order() {
    assert_eq!(
        extract_images(&example()),
        Ok(vec!["nginx:latest".to_string(), "redis".to_string()])
    );
}

#[test]
fn image_key_with_non_string_value_is_not_searched() {
    let v = obj(vec![
        ("image", obj(vec![("image", s("hidden"))])),
        ("spec", obj(vec![("image", s("shown"))])),
    ]);
    assert_eq!(extract_images(&v), Ok(vec!["shown".to_string()]));
}

#[test]
fn scalars_hold_no_images() {
    assert_eq!(extract_images(&JsonValue::Null), Ok(vec![]));
    assert_eq!(extract_images(&s("image")), Ok(vec![]));
    assert_eq!(extract_images(&JsonValue::Bool(true)), Ok(vec![]));
}

fn nested(depth: usize) -> JsonValue {
    let mut v = obj(vec![("image", s("deep"))]);
    for _ in 1..depth {
        v = JsonValue::Array(vec![v]);
    }
    v
}

#[test]
fn nesting_at_the_limit_is_walked() {
    assert_eq!(
        extract_images(&nested(MAX_NESTING)),
        Ok(vec!["deep".to_string()])
    );
}

#[test]
fn nesting_past_the_limit_is_refused() {
    assert_eq!(
        extract_images(&nested(MAX_NESTING + 1)),
        Err(ValidationError::ExtractionTooDeep)
    );
}

#[test]
fn query_carries_images_and_request_fields() {
    let req = AdmissionRequest {
        uid: "u-1".to_string(),
        namespace: "default".to_string(),
        operation: "CREATE".to_string(),
        object: example(),
    };
    let hosts = vec!["registry.local".to_string()];
    let q = admission_query(&req, &hosts).unwrap();
    assert_eq!(q.images, vec!["nginx:latest".to_string(), "redis".to_string()]);
    assert_eq!(q.namespace, "default");
    assert_eq!(q.operation, "CREATE");
    assert_eq!(q.host_names, hosts);
}

#[test]
fn refused_request_reports_failure_with_reason() {
    let r = admission_response(&"u-1".to_string(), false, &"policy X".to_string());
    assert_eq!(r.uid, "u-1");
    assert!(!r.allowed);
    let st = r.status.unwrap();
    assert_eq!(st.status, "Failure");
    assert_eq!(st.message, Some("policy X".to_string()));
    assert_eq!(st.code, None);
}

#[test]
fn allowed_request_reports_success() {
    let r = admission_response(&"u-2".to_string(), true, &String::new());
    assert!(r.allowed);
    let st = r.status.unwrap();
    assert_eq!(st.status, "Success");
    assert_eq!(st.message, None);
}
