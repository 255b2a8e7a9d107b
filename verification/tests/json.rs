use foxtive_ntex::http::extractors::de_json_body::DeJsonBody;
use foxtive_ntex::http::extractors::json_body::JsonBody;
use foxtive_ntex::{AppFailure, AppResult, HttpError};
use std::collections::HashMap;

#[derive(Debug, PartialEq)]
struct TestStruct {
    field1: String,
    field2: i32,
}

struct TestStructVisitor;

impl<'de> serde::de::Visitor<'de> for TestStructVisitor {
    type Value = TestStruct;

    fn expecting(&self, formatter: &mut std::fmt::Formatter) -> std::fmt::Result {
        formatter.write_str("struct TestStruct")
    }

    fn visit_map<A: serde::de::MapAccess<'de>>(self, mut map: A) -> Result<TestStruct, A::Error> {
        let mut field1: Option<String> = None;
        let mut field2: Option<i32> = None;
        while let Some(key) = map.next_key::<String>()? {
            match key.as_str() {
                "field1" => field1 = Some(map.next_value::<String>()?),
                "field2" => field2 = Some(map.next_value::<i32>()?),
                _ => {
                    map.next_value::<serde::de::IgnoredAny>()?;
                }
            }
        }
        Ok(TestStruct {
            field1: field1.ok_or_else(|| serde::de::Error::missing_field("field1"))?,
            field2: field2.ok_or_else(|| serde::de::Error::missing_field("field2"))?,
        })
    }
}

impl<'de> serde::Deserialize<'de> for TestStruct {
    fn deserialize<D: serde::Deserializer<'de>>(deserializer: D) -> Result<Self, D::Error> {
        deserializer.deserialize_map(TestStructVisitor)
    }
}

fn read<T: serde::de::DeserializeOwned>(json: &str) -> Result<T, String> {
    serde_json::from_str::<T>(json).map_err(|e| e.to_string())
}

fn warning_of<T>(result: AppResult<T>) -> (u16, String) {
    match result {
        Err(AppFailure::Http(inner)) => {
            let status = inner.status_code();
            match *inner {
                HttpError::AppMessage(notice) => (status, notice.message),
                other => panic!("unexpected failure: {other:?}"),
            }
        }
        Err(other) => panic!("unexpected failure: {other:?}"),
        Ok(_) => panic!("expected a failure"),
    }
}

#[test]
fn test_raw() {
    let json_str = r#"{"field1": "value1", "field2": 42}"#.to_string();
    let json_body = JsonBody::from(json_str.clone());

    assert_eq!(json_body.body(), &json_str);
    assert_eq!(json_body.raw(), &json_str);
    assert_eq!(json_body.into_body(), json_str);
}

#[test]
fn json_body_test_deserialize_success() {
    let json_str = r#"{"field1": "value1", "field2": 42}"#.to_string();
    let json_body = JsonBody::from(json_str);

    let result: AppResult<TestStruct> = json_body.deserialize(read(json_body.body()));
    assert!(result.is_ok());

    let deserialized = result.unwrap();
    let expected = TestStruct {
        field1: "value1".to_string(),
        field2: 42,
    };

    assert_eq!(deserialized, expected);
}

#[test]
fn json_body_test_deserialize_failure() {
    let json_str = r#"{"field1": "value1", "field2": "invalid_int"}"#.to_string();
    let json_body = JsonBody::from(json_str);

    let result: AppResult<TestStruct> = json_body.deserialize(read(json_body.body()));
    assert!(result.is_err());
    let (status, message) = warning_of(result);

    assert_eq!(status, 400);
    assert_eq!(
        message,
        "invalid type: string \"invalid_int\", expected i32 at line 1 column 44"
    );
}

#[test]
fn test_json_value_success() {
    let json_str = r#"{"field1": "value1", "field2": 42}"#.to_string();
    let json_body = JsonBody::from(json_str);

    let result = json_body.json_value();
    assert!(result.is_ok());

    let json_value = result.unwrap();
    let mut object = serde_json::Map::new();
    object.insert(
        "field1".to_string(),
        serde_json::Value::String("value1".to_string()),
    );
    object.insert("field2".to_string(), serde_json::Value::from(42));
    let expected = serde_json::Value::Object(object);

    let parsed_json: serde_json::Value = serde_json::from_str(json_body.body()).unwrap();
    assert_eq!(json_value, expected);
    assert_eq!(json_value, parsed_json);
}

#[test]
fn test_json_value_failure() {
    let json_str = "not_a_json".to_string();
    let json_body = JsonBody::from(json_str);

    let result = json_body.json_value();
    assert!(result.is_err());
    match result {
        Err(AppFailure::Json(text)) => assert!(text.contains("expected")),
        other => panic!("unexpected outcome: {other:?}"),
    }
}

#[test]
fn test_json_value_string_as_value() {
    let json_str = "\"just_a_string\"".to_string();
    let json_body = JsonBody::from(json_str.clone());

    let result = json_body.json_value();
    assert!(result.is_ok());

    let json_value = result.unwrap();

    let expected = serde_json::Value::String("just_a_string".to_string());

    assert_eq!(json_value, expected);
}

#[test]
fn json_body_test_deserialize_to_map() {
    let json_str = r#"{"key1": "value1", "key2": "value2"}"#.to_string();
    let json_body = JsonBody::from(json_str);

    let result: AppResult<HashMap<String, String>> = json_body.deserialize(read(json_body.body()));
    assert!(result.is_ok());

    let deserialized = result.unwrap();
    let mut expected = HashMap::new();
    expected.insert("key1".to_string(), "value1".to_string());
    expected.insert("key2".to_string(), "value2".to_string());

    assert_eq!(deserialized, expected);
}

#[test]
fn test_body() {
    let json_str = r#"{"field1": "value1", "field2": 42}"#.to_string();
    let de_json_body =
        DeJsonBody::<TestStruct>::new(json_str.clone(), read(&json_str)).unwrap();

    assert_eq!(de_json_body.body(), &json_str);
}

#[test]
fn test_into_body() {
    let json_str = r#"{"field1": "value1", "field2": 42}"#.to_string();
    let de_json_body =
        DeJsonBody::<TestStruct>::new(json_str.clone(), read(&json_str)).unwrap();

    assert_eq!(de_json_body.into_body(), json_str);
}

#[test]
fn test_inner() {
    let json_str = r#"{"field1": "value1", "field2": 42}"#.to_string();
    let parsed = read(&json_str);
    let de_json_body = DeJsonBody::<TestStruct>::new(json_str, parsed).unwrap();

    let expected = TestStruct {
        field1: "value1".to_string(),
        field2: 42,
    };

    assert_eq!(*de_json_body.inner(), expected);
}

#[test]
fn test_into_inner() {
    let json_str = r#"{"field1": "value1", "field2": 42}"#.to_string();
    let parsed = read(&json_str);
    let de_json_body = DeJsonBody::<TestStruct>::new(json_str, parsed).unwrap();

    let expected = TestStruct {
        field1: "value1".to_string(),
        field2: 42,
    };

    assert_eq!(de_json_body.into_inner(), expected);
}

#[test]
fn de_json_body_test_deserialize_success() {
    let json_str = r#"{"field1": "value1", "field2": 42}"#.to_string();
    let parsed = read(&json_str);
    let de_json_body = DeJsonBody::<TestStruct>::new(json_str, parsed).unwrap();

    let expected = TestStruct {
        field1: "value1".to_string(),
        field2: 42,
    };

    assert_eq!(*de_json_body.inner(), expected);
}

#[test]
fn de_json_body_test_deserialize_failure() {
    let json_str = r#"{"field1": "value1", "field2": "invalid_int"}"#.to_string();
    let parsed = read(&json_str);
    let result = DeJsonBody::<TestStruct>::new(json_str, parsed);

    let error = match result {
        Err(ref err) => {
            assert!(result.is_err());
            err
        }
        Ok(_) => {
            panic!("Expected Err, got Ok(Val)");
        }
    };

    assert_eq!(error.status_code(), 400);
}

#[test]
fn de_json_body_test_deserialize_to_map() {
    let json_str = r#"{"key1": "value1", "key2": "value2"}"#.to_string();
    let parsed = read(&json_str);
    let de_json_body = DeJsonBody::<HashMap<String, String>>::new(json_str, parsed).unwrap();

    let expected = {
        let mut map = HashMap::new();
        map.insert("key1".to_string(), "value1".to_string());
        map.insert("key2".to_string(), "value2".to_string());
        map
    };

    assert_eq!(*de_json_body.inner(), expected);
}
