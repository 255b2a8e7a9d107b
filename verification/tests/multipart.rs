use foxtive_ntex::multipart::{classify_part, on_chunk_failure, ChunkAction, PartKind};
use foxtive_ntex::{
    DataInput, FileInput, FileRules, Multipart, MultipartError, PostParseableFromStr, RawPart,
    Sealed, Validator,
};
use ntex::http::header::{HeaderName, HeaderValue};
use ntex::http::HeaderMap;
use ntex::util::Bytes;
use std::str::FromStr;

/// A decimal number, read as `f64` reads it.
#[derive(Debug, PartialEq)]
struct Decimal(f64);

impl Sealed for Decimal {}

impl PostParseableFromStr for Decimal {
    fn label() -> &'static str {
        "f64"
    }

    fn parse_text(text: &str) -> Result<Self, String> {
        text.parse::<f64>().map(Decimal).map_err(|e| e.to_string())
    }
}

/// A decimal number, read as `f32` reads it.
#[derive(Debug, PartialEq)]
struct Single(f32);

impl Sealed for Single {}

impl PostParseableFromStr for Single {
    fn label() -> &'static str {
        "f32"
    }

    fn parse_text(text: &str) -> Result<Self, String> {
        text.parse::<f32>().map(Single).map_err(|e| e.to_string())
    }
}

#[derive(Debug, PartialEq)]
struct Money {
    cents: u64,
    currency: String,
}

impl std::str::FromStr for Money {
    type Err = String;
    fn from_str(s: &str) -> Result<Self, Self::Err> {
        // Parse formats like "USD 1234" (cents) or "$12.34"
        if let Some(amount_str) = s.strip_prefix('$') {
            let dollars: f64 = amount_str
                .parse()
                .map_err(|_| format!("Invalid dollar amount: {amount_str}"))?;
            Ok(Money {
                cents: (dollars * 100.0) as u64,
                currency: "USD".to_string(),
            })
        } else if let Some(space_idx) = s.find(' ') {
            let currency = &s[..space_idx];
            let cents_str = &s[space_idx + 1..];
            let cents: u64 = cents_str
                .parse()
                .map_err(|_| format!("Invalid cents amount: {cents_str}"))?;
            Ok(Money {
                cents,
                currency: currency.to_string(),
            })
        } else {
            Err(format!("Invalid money format: {s}"))
        }
    }
}

impl Sealed for Money {}

impl PostParseableFromStr for Money {
    fn label() -> &'static str {
        "Money"
    }

    fn parse_text(text: &str) -> Result<Self, String> {
        text.parse::<Money>()
    }
}

// A custom type that implements FromStr
#[derive(Debug, PartialEq)]
struct CustomId(u64);

impl std::str::FromStr for CustomId {
    type Err = std::num::ParseIntError;
    fn from_str(s: &str) -> Result<Self, Self::Err> {
        Ok(CustomId(s.parse()?))
    }
}

impl Sealed for CustomId {}

impl PostParseableFromStr for CustomId {
    fn label() -> &'static str {
        "CustomId"
    }

    fn parse_text(text: &str) -> Result<Self, String> {
        text.parse::<CustomId>().map_err(|e| e.to_string())
    }
}

#[derive(Debug, PartialEq)]
struct OrderId(String);

impl std::str::FromStr for OrderId {
    type Err = String;
    fn from_str(s: &str) -> Result<Self, Self::Err> {
        if s.starts_with("ORD-") && s.len() == 10 {
            Ok(OrderId(s.to_string()))
        } else {
            Err(format!("Invalid order ID format: {s}"))
        }
    }
}

impl Sealed for OrderId {}

impl PostParseableFromStr for OrderId {
    fn label() -> &'static str {
        "OrderId"
    }

    fn parse_text(text: &str) -> Result<Self, String> {
        text.parse::<OrderId>()
    }
}

fn add(multipart: &mut Multipart, name: &str, value: &str) {
    multipart.push_data(DataInput {
        name: name.to_string(),
        value: value.to_string(),
    });
}

fn text_file(field: &str, name: &str, size: usize, content: &'static str) -> FileInput {
    FileInput {
        field_name: field.to_string(),
        file_name: name.to_string(),
        content_type: "text/plain".to_string(),
        size,
        bytes: vec![Bytes::from(content)],
        extension: None,
        content_disposition: Default::default(),
    }
}

fn part(disposition: Option<&str>, content_type: Option<&str>, chunks: Vec<Bytes>) -> RawPart {
    let mut headers = HeaderMap::new();
    if let Some(d) = disposition {
        headers.insert(
            HeaderName::from_str("content-disposition").unwrap(),
            HeaderValue::from_str(d).unwrap(),
        );
    }
    if let Some(t) = content_type {
        headers.insert(
            HeaderName::from_str("content-type").unwrap(),
            HeaderValue::from_str(t).unwrap(),
        );
    }
    RawPart { headers, chunks }
}

// Test 1: Test creating a new multipart instance with no data
#[test]
fn multipart_test_multipart_new() {
    let multipart_instance = Multipart::new();

    assert!(multipart_instance.all_data().is_empty());
    assert!(multipart_instance.all_files().is_empty());
}

// Test 3: Test adding multiple data fields and verifying the count
#[test]
fn multipart_test_multiple_data_fields() {
    let mut multipart_instance = Multipart::new();

    // Adding multiple data entries for the same field
    add(&mut multipart_instance, "key1", "value1");
    add(&mut multipart_instance, "key1", "value2");

    // Verify multiple data entries for the same field
    assert_eq!(multipart_instance.data("key1").unwrap().len(), 2);
    assert_eq!(multipart_instance.data("key1").unwrap()[0].value, "value1");
    assert_eq!(multipart_instance.data("key1").unwrap()[1].value, "value2");
}

// Test 4: Test adding multiple files for the same field
#[test]
fn multipart_test_multiple_files() {
    let mut multipart_instance = Multipart::new();

    // Adding multiple files for the same field
    multipart_instance.push_file(text_file("file1", "file1.txt", 11, "File 1 Content"));
    multipart_instance.push_file(text_file("file1", "file2.txt", 12, "File 2 Content"));

    // Verify multiple files for the same field
    assert_eq!(multipart_instance.files("file1").unwrap().len(), 2);
    assert_eq!(
        multipart_instance.files("file1").unwrap()[1].file_name,
        "file2.txt"
    );
}

// Test 5: Test invalid validation when too few files are uploaded
#[test]
fn multipart_test_validate_files_too_few() {
    let mut multipart_instance = Multipart::new();

    // No files added, so validation should fail
    let validator = Validator::new().add_rule(
        "file1",
        FileRules {
            min_files: Some(1),
            max_files: Some(5),
            required: true,
            ..Default::default()
        },
    );

    let result = multipart_instance.validate(vec![], validator);

    assert!(result.is_err());
}

// Test 6: Test retrieval of the first file and data input
#[test]
fn multipart_test_first_file_and_data_input() {
    let mut multipart_instance = Multipart::new();

    // Adding data and files
    add(&mut multipart_instance, "key1", "value1");
    multipart_instance.push_file(text_file("file1", "file1.txt", 11, "File 1 Content"));

    // Test first data input
    let first_data = multipart_instance.first_data("key1");
    assert_eq!(first_data.unwrap().value, "value1");

    // Test first file input
    let first_file = multipart_instance.first_file("file1");
    assert_eq!(first_file.unwrap().file_name, "file1.txt");
}

// Test 7: Test handling of empty file field
#[test]
fn multipart_test_empty_file_field() {
    let multipart_instance = Multipart::new();

    // Verify empty file field (no files should be found)
    assert!(multipart_instance.files("empty_file").is_none());
    assert!(!multipart_instance.has_file("empty_file"));
    assert!(multipart_instance.first_file("empty_file").is_none());
}

// Test 8: Test generic post method for different types
#[test]
fn multipart_test_post_method_with_types() {
    let mut multipart_instance = Multipart::new();

    // Adding various typed data
    add(&mut multipart_instance, "price", "100");
    add(&mut multipart_instance, "name", "John Doe");
    add(&mut multipart_instance, "is_active", "true");
    add(&mut multipart_instance, "rating", "4.5");

    // Test parsing different types
    let price: i32 = multipart_instance.post("price").unwrap();
    assert_eq!(price, 100);

    let name: String = multipart_instance.post("name").unwrap();
    assert_eq!(name, "John Doe");

    let is_active: bool = multipart_instance.post("is_active").unwrap();
    assert!(is_active);

    let rating: Decimal = multipart_instance.post("rating").unwrap();
    assert_eq!(rating.0, 4.5);
}

// Test 9: Test post_or method with default values
#[test]
fn multipart_test_post_or_method() {
    let multipart_instance = Multipart::new();

    // Test with missing field - should return default
    let default_price: i32 = multipart_instance.post_or("missing_price", 50);
    assert_eq!(default_price, 50);

    let default_name: String =
        multipart_instance.post_or("missing_name", "Default Name".to_string());
    assert_eq!(default_name, "Default Name");
}

// Test 10: Test post_opt method for optional values
#[test]
fn multipart_test_post_opt_method() {
    let mut multipart_instance = Multipart::new();

    // Add some data
    add(&mut multipart_instance, "optional_price", "200");

    // Test with existing field
    let price: Option<i32> = multipart_instance.post_opt("optional_price");
    assert_eq!(price, Some(200));

    // Test with missing field
    let missing_price: Option<i32> = multipart_instance.post_opt("missing_price");
    assert_eq!(missing_price, None);
}

// Test 11: Test post method error handling
#[test]
fn multipart_test_post_method_error_handling() {
    let mut multipart_instance = Multipart::new();

    // Add invalid data for parsing
    add(&mut multipart_instance, "invalid_number", "not_a_number");

    // Test parsing invalid number
    let result: Result<i32, _> = multipart_instance.post("invalid_number");
    assert!(result.is_err());

    // Test missing field
    let result: Result<String, _> = multipart_instance.post("missing_field");
    assert!(result.is_err());

    // Test invalid Option<T> parsing - should return error for invalid values
    add(
        &mut multipart_instance,
        "invalid_optional_number",
        "not_a_number",
    );

    let result: Result<Option<i32>, _> = multipart_instance.post("invalid_optional_number");
    assert!(result.is_err()); // Should error because value exists but can't be parsed
}

// Test 12: Test post method with Option<T> types
#[test]
fn multipart_test_post_method_with_option_types() {
    let mut multipart_instance = Multipart::new();

    // Add some data - some fields present, some missing, some empty
    add(&mut multipart_instance, "existing_price", "100");
    add(&mut multipart_instance, "empty_field", "");
    add(&mut multipart_instance, "whitespace_field", "   ");

    // Test with existing field - should return Some(value)
    let existing_price: Option<i32> = multipart_instance.post("existing_price").unwrap();
    assert_eq!(existing_price, Some(100));

    // Test with missing field - should return None
    let missing_price: Option<i32> = multipart_instance.post("missing_field").unwrap();
    assert_eq!(missing_price, None);

    // Test with empty field - should return None
    let empty_price: Option<i32> = multipart_instance.post("empty_field").unwrap();
    assert_eq!(empty_price, None);

    // Test with whitespace-only field - should return None
    let whitespace_price: Option<i32> = multipart_instance.post("whitespace_field").unwrap();
    assert_eq!(whitespace_price, None);

    // Test with Option<String>
    let existing_name: Option<String> = multipart_instance.post("existing_price").unwrap();
    assert_eq!(existing_name, Some("100".to_string()));

    let missing_name: Option<String> = multipart_instance.post("missing_field").unwrap();
    assert_eq!(missing_name, None);
}

// Test 13: Test the types that are registered from the start
#[test]
fn multipart_test_comprehensive_fromstr_type_support() {
    let mut multipart_instance = Multipart::new();

    // Add test data for various types
    let test_data = vec![
        ("test_u8", "255"),
        ("test_u16", "65535"),
        ("test_u32", "4294967295"),
        ("test_u64", "18446744073709551615"),
        ("test_u128", "340282366920938463463374607431768211455"),
        ("test_usize", "42"),
        ("test_i8", "-128"),
        ("test_i16", "-32768"),
        ("test_i32", "-2147483648"),
        ("test_i64", "-9223372036854775808"),
        ("test_i128", "-170141183460469231731687303715884105728"),
        ("test_isize", "-42"),
        ("test_f32", "3.14159"),
        ("test_f64", "2.718281828459045"),
        ("test_path", "uploads/a.txt"),
        ("test_bool_true", "true"),
        ("test_bool_false", "false"),
        ("test_char", "x"),
        ("test_string", "Hello, World!"),
    ];

    for (name, value) in test_data {
        add(&mut multipart_instance, name, value);
    }

    // Test parsing various types
    let parsed_u8: u8 = multipart_instance.post("test_u8").unwrap();
    assert_eq!(parsed_u8, 255);

    let parsed_u16: u16 = multipart_instance.post("test_u16").unwrap();
    assert_eq!(parsed_u16, 65535);

    let parsed_u32: u32 = multipart_instance.post("test_u32").unwrap();
    assert_eq!(parsed_u32, 4294967295);

    let parsed_u64: u64 = multipart_instance.post("test_u64").unwrap();
    assert_eq!(parsed_u64, 18446744073709551615);

    let parsed_u128: u128 = multipart_instance.post("test_u128").unwrap();
    assert_eq!(parsed_u128, u128::MAX);

    let parsed_usize: usize = multipart_instance.post("test_usize").unwrap();
    assert_eq!(parsed_usize, 42);

    let parsed_i8: i8 = multipart_instance.post("test_i8").unwrap();
    assert_eq!(parsed_i8, -128);

    let parsed_i16: i16 = multipart_instance.post("test_i16").unwrap();
    assert_eq!(parsed_i16, -32768);

    let parsed_i32: i32 = multipart_instance.post("test_i32").unwrap();
    assert_eq!(parsed_i32, -2147483648);

    let parsed_i64: i64 = multipart_instance.post("test_i64").unwrap();
    assert_eq!(parsed_i64, -9223372036854775808);

    let parsed_i128: i128 = multipart_instance.post("test_i128").unwrap();
    assert_eq!(parsed_i128, i128::MIN);

    let parsed_isize: isize = multipart_instance.post("test_isize").unwrap();
    assert_eq!(parsed_isize, -42);

    let parsed_f32: Single = multipart_instance.post("test_f32").unwrap();
    let pi = 3.14159;
    assert!((parsed_f32.0 - pi).abs() < f32::EPSILON);

    let parsed_path: std::path::PathBuf = multipart_instance.post("test_path").unwrap();
    assert_eq!(parsed_path, std::path::PathBuf::from("uploads/a.txt"));

    let parsed_f64: Decimal = multipart_instance.post("test_f64").unwrap();
    assert!((parsed_f64.0 - std::f64::consts::E).abs() < f64::EPSILON);

    let parsed_bool_true: bool = multipart_instance.post("test_bool_true").unwrap();
    assert!(parsed_bool_true);

    let parsed_bool_false: bool = multipart_instance.post("test_bool_false").unwrap();
    assert!(!parsed_bool_false);

    let parsed_char: char = multipart_instance.post("test_char").unwrap();
    assert_eq!(parsed_char, 'x');

    let parsed_string: String = multipart_instance.post("test_string").unwrap();
    assert_eq!(parsed_string, "Hello, World!");
}

// Test 14: Test custom type support
#[test]
fn multipart_test_custom_type_support() {
    let mut multipart_instance = Multipart::new();

    // Add test data
    add(&mut multipart_instance, "custom_id", "12345");

    // Test parsing the custom type
    let parsed_id: CustomId = multipart_instance.post("custom_id").unwrap();
    assert_eq!(parsed_id, CustomId(12345));

    // Test with Option
    let optional_id: Option<CustomId> = multipart_instance.post("custom_id").unwrap();
    assert_eq!(optional_id, Some(CustomId(12345)));

    // Test missing field with Option
    let missing_id: Option<CustomId> = multipart_instance.post("missing_id").unwrap();
    assert_eq!(missing_id, None);

    // Test error handling
    add(&mut multipart_instance, "invalid_id", "not_a_number");

    let result: Result<CustomId, _> = multipart_instance.post("invalid_id");
    assert!(result.is_err());
}

// Test 15: Real-world usage example
#[test]
fn multipart_test_real_world_integration() {
    let mut multipart_instance = Multipart::new();

    // Simulate form data from a real e-commerce application
    let form_data = vec![
        ("order_id", "ORD-123456"),
        ("customer_name", "John Doe"),
        ("email", "john.doe@example.com"),
        ("product_count", "3"),
        ("total_amount", "$149.99"),
        ("discount_amount", "USD 1500"), // 15.00 in cents
        ("is_priority", "true"),
        ("shipping_weight", "2.5"),
        ("notes", "Please handle with care"),
    ];

    for (name, value) in form_data {
        add(&mut multipart_instance, name, value);
    }

    // Custom types
    let order_id: OrderId = multipart_instance.post("order_id").unwrap();
    assert_eq!(order_id, OrderId("ORD-123456".to_string()));

    let total_amount: Money = multipart_instance.post("total_amount").unwrap();
    assert_eq!(
        total_amount,
        Money {
            cents: 14999,
            currency: "USD".to_string()
        }
    );

    let discount: Money = multipart_instance.post("discount_amount").unwrap();
    assert_eq!(
        discount,
        Money {
            cents: 1500,
            currency: "USD".to_string()
        }
    );

    // Standard types
    let customer_name: String = multipart_instance.post("customer_name").unwrap();
    assert_eq!(customer_name, "John Doe");

    let email: String = multipart_instance.post("email").unwrap();
    assert_eq!(email, "john.doe@example.com");

    let product_count: u32 = multipart_instance.post("product_count").unwrap();
    assert_eq!(product_count, 3);

    let is_priority: bool = multipart_instance.post("is_priority").unwrap();
    assert!(is_priority);

    let shipping_weight: Decimal = multipart_instance.post("shipping_weight").unwrap();
    assert!((shipping_weight.0 - 2.5).abs() < f64::EPSILON);

    let notes: String = multipart_instance.post("notes").unwrap();
    assert_eq!(notes, "Please handle with care");

    // Test optional fields
    let optional_field: Option<String> = multipart_instance.post("optional_field").unwrap();
    assert_eq!(optional_field, None);

    let optional_order_id: Option<OrderId> = multipart_instance.post("backup_order_id").unwrap();
    assert_eq!(optional_order_id, None);

    // Test default values
    let default_priority = multipart_instance.post_or("missing_priority", false);
    assert!(!default_priority);

    let default_amount = multipart_instance.post_or(
        "missing_amount",
        Money {
            cents: 0,
            currency: "USD".to_string(),
        },
    );
    assert_eq!(
        default_amount,
        Money {
            cents: 0,
            currency: "USD".to_string()
        }
    );

    // Test error handling with helpful messages
    add(&mut multipart_instance, "invalid_order_id", "INVALID-ID");

    let error_result: Result<OrderId, _> = multipart_instance.post("invalid_order_id");
    assert!(error_result.is_err());

    let error_message = error_result.unwrap_err().message();
    assert!(error_message.contains("invalid_order_id"));
    assert!(error_message.contains("INVALID-ID"));
}

#[test]
fn required_field_failures_name_field_value_and_type() {
    let mut multipart = Multipart::new();
    add(&mut multipart, "age", "  abc ");
    add(&mut multipart, "blank", " \t ");
    match multipart.post::<u8>("age") {
        Err(MultipartError::ParseError(msg)) => assert_eq!(
            msg,
            "Failed to parse field 'age' with value 'abc' as u8: invalid digit found in string"
        ),
        other => panic!("unexpected outcome: {other:?}"),
    }
    match multipart.post::<u8>("blank") {
        Err(MultipartError::ParseError(msg)) => {
            assert_eq!(msg, "Field 'blank' is empty and cannot be parsed as u8")
        }
        other => panic!("unexpected outcome: {other:?}"),
    }
    match multipart.post::<String>("absent") {
        Err(MultipartError::MissingDataField(field)) => assert_eq!(field, "absent"),
        other => panic!("unexpected outcome: {other:?}"),
    }
    match multipart.first_data_required("absent") {
        Err(MultipartError::MissingDataField(field)) => assert_eq!(field, "absent"),
        other => panic!("unexpected outcome: {other:?}"),
    }
    assert_eq!(multipart.first_data_required("age").unwrap().value, "  abc ");
}

#[test]
fn optional_coercion_has_four_outcomes() {
    let mut multipart = Multipart::new();
    add(&mut multipart, "blank", "   ");
    add(&mut multipart, "bad", "x1");
    add(&mut multipart, "good", " 17 ");
    assert_eq!(multipart.post::<Option<i64>>("missing").unwrap(), None);
    assert_eq!(multipart.post::<Option<i64>>("blank").unwrap(), None);
    match multipart.post::<Option<i64>>("bad") {
        Err(MultipartError::ParseError(msg)) => assert_eq!(
            msg,
            "Failed to parse field 'bad' with value 'x1' as i64: invalid digit found in string"
        ),
        other => panic!("unexpected outcome: {other:?}"),
    }
    assert_eq!(multipart.post::<Option<i64>>("good").unwrap(), Some(17));
}

#[test]
fn post_opt_swallows_parse_failures_where_option_coercion_does_not() {
    let mut multipart = Multipart::new();
    add(&mut multipart, "bad", "x1");
    assert_eq!(multipart.post_opt::<i64>("bad"), None);
    assert!(multipart.post::<Option<i64>>("bad").is_err());
    assert_eq!(multipart.post_or::<i64>("bad", 5), 5);
    // the default of an optional read replaces a failure, not an absent value
    assert_eq!(multipart.post_or::<Option<i64>>("bad", Some(1)), Some(1));
    assert_eq!(multipart.post_or::<Option<i64>>("gone", Some(1)), None);
}

#[test]
fn data_input_reads_the_untrimmed_value() {
    let input = DataInput {
        name: "n".to_string(),
        value: "12".to_string(),
    };
    assert_eq!(input.get::<u8>(), Ok(12));
    let padded = DataInput {
        name: "n".to_string(),
        value: " 12".to_string(),
    };
    assert!(padded.get::<u8>().is_err());
    assert_eq!(input.parts(), (&"n".to_string(), &"12".to_string()));
    assert_eq!(input.inner().name, "n");
    assert_eq!(
        input.into_inner().into_parts(),
        ("n".to_string(), "12".to_string())
    );
}

#[test]
fn end_to_end_text_part_and_file_part() {
    let mut multipart = Multipart::new();
    let events = vec![
        Ok(part(
            Some("form-data; name=\"price\""),
            None,
            vec![Bytes::from_static(b"1"), Bytes::from_static(b"00")],
        )),
        Ok(part(
            Some("form-data; name=\"photo\"; filename=\"vacation.jpg\""),
            Some("image/jpeg"),
            vec![Bytes::from_static(&[0xFF, 0xD8]), Bytes::from_static(&[0; 6])],
        )),
    ];
    multipart.process(events).unwrap();

    assert_eq!(multipart.post::<i32>("price").unwrap(), 100);
    let photo = multipart.first_file("photo").unwrap();
    assert_eq!(photo.extension, Some("jpg".to_string()));
    assert_eq!(photo.file_name, "vacation.jpg");
    assert_eq!(photo.content_type, "image/jpeg");
    assert_eq!(photo.size, 8);
    assert_eq!(photo.calculate_size(), photo.size);
    assert_eq!(photo.bytes.len(), 2);
    assert!(multipart.has_file("photo"));
    assert!(!multipart.has_file("price"));
    assert!(multipart.data("photo").is_none());
    assert_eq!(multipart.all_data().len(), 1);
    assert_eq!(multipart.all_files().len(), 1);
}

#[test]
fn parts_are_classified_by_their_disposition() {
    let mut multipart = Multipart::new();
    // neither name nor filename, no disposition at all, and a filename without a name
    multipart
        .accept_part(part(Some("form-data"), None, vec![Bytes::from_static(b"x")]))
        .unwrap();
    multipart
        .accept_part(part(None, Some("text/plain"), vec![Bytes::from_static(b"x")]))
        .unwrap();
    multipart
        .accept_part(part(
            Some("form-data; filename=\"a.txt\""),
            Some("text/plain"),
            vec![],
        ))
        .unwrap();
    assert!(multipart.all_data().is_empty());
    assert!(multipart.all_files().is_empty());
    // only a name
    multipart
        .accept_part(part(Some("form-data; name=\"a\""), None, vec![]))
        .unwrap();
    assert_eq!(multipart.first_data("a").unwrap().value, "");
    assert_eq!(multipart.first_data("a").unwrap().name, "a");
    assert!(multipart.all_files().is_empty());
    // a name and a filename
    multipart
        .accept_part(part(
            Some("form-data; name=\"a\"; filename=\"a.txt\""),
            Some("text/plain"),
            vec![],
        ))
        .unwrap();
    assert_eq!(multipart.files("a").unwrap().len(), 1);
    assert_eq!(multipart.data("a").unwrap().len(), 1);
    assert_eq!(PartKind::Data, PartKind::Data);
}

#[test]
fn file_part_without_content_type_fails_and_keeps_what_was_collected() {
    let mut multipart = Multipart::new();
    let events = vec![
        Ok(part(
            Some("form-data; name=\"a\""),
            None,
            vec![Bytes::from_static(b"1")],
        )),
        Ok(part(
            Some("form-data; name=\"f\"; filename=\"a.txt\""),
            None,
            vec![],
        )),
        Ok(part(
            Some("form-data; name=\"b\""),
            None,
            vec![Bytes::from_static(b"2")],
        )),
    ];
    match multipart.process(events) {
        Err(MultipartError::NoContentType(msg)) => assert_eq!(msg, "Empty content type"),
        other => panic!("unexpected outcome: {other:?}"),
    }
    assert_eq!(multipart.first_data("a").unwrap().value, "1");
    assert!(multipart.first_data("b").is_none());
}

#[test]
fn stream_failure_stops_processing() {
    let mut multipart = Multipart::new();
    let events = vec![
        Ok(part(
            Some("form-data; name=\"a\""),
            None,
            vec![Bytes::from_static(b"1")],
        )),
        Err(ntex_multipart::MultipartError::Incomplete),
        Ok(part(
            Some("form-data; name=\"b\""),
            None,
            vec![Bytes::from_static(b"2")],
        )),
    ];
    let err = multipart.process(events).unwrap_err();
    assert!(matches!(
        err,
        MultipartError::NtexError(ntex_multipart::MultipartError::Incomplete)
    ));
    assert!(!err.message().is_empty());
    assert_eq!(multipart.all_data().len(), 1);
}

#[test]
fn invalid_bytes_of_a_text_field_are_replaced_segment_by_segment() {
    let mut multipart = Multipart::new();
    multipart
        .accept_part(part(
            Some("form-data; name=\"t\""),
            None,
            vec![
                Bytes::from_static(b"ab"),
                Bytes::from_static(&[0xFF]),
                Bytes::from_static(b"c"),
            ],
        ))
        .unwrap();
    assert_eq!(multipart.first_data("t").unwrap().value, "ab\u{FFFD}c");
}

#[test]
fn validate_reports_violations_after_processing() {
    let mut multipart = Multipart::new();
    let validator = Validator::new().add_rule(
        "photo",
        FileRules {
            allowed_extensions: Some(vec!["png".to_string()]),
            ..Default::default()
        },
    );
    let events = vec![Ok(part(
        Some("form-data; name=\"photo\"; filename=\"vacation.jpg\""),
        Some("image/jpeg"),
        vec![Bytes::from_static(&[0; 4])],
    ))];
    match multipart.validate(events, validator) {
        Err(MultipartError::ValidationError(err)) => {
            assert_eq!(err.name, "photo");
            assert_eq!(
                err.error,
                foxtive_ntex::ErrorMessage::InvalidFileExtension(Some("jpg".to_string()))
            );
        }
        other => panic!("unexpected outcome: {other:?}"),
    }
    assert!(multipart.has_file("photo"));
}

#[test]
fn a_part_whose_size_fits_is_taken_in() {
    let mut multipart = Multipart::new();
    let outcome = multipart.try_accept_part(part(
        Some("form-data; name=\"f\"; filename=\"a.bin\""),
        Some("application/octet-stream"),
        vec![Bytes::from_static(&[1, 2]), Bytes::from_static(&[3])],
    ));
    assert!(matches!(outcome, Ok(Ok(()))));
    let file = multipart.first_file("f").unwrap();
    assert_eq!(file.size, 3);
    assert_eq!(file.checked_size(), Some(3));
    assert_eq!(file.content(), vec![1, 2, 3]);
    let failed = multipart.try_accept_part(part(
        Some("form-data; name=\"g\"; filename=\"a.bin\""),
        None,
        vec![],
    ));
    assert!(matches!(
        failed,
        Ok(Err(MultipartError::NoContentType(_)))
    ));
}

// Test 16: Test UUID support
#[test]
fn test_uuid_support() {
    let mut multipart_instance = Multipart::new();

    // Add valid UUID test data
    let test_uuid_str = "550e8400-e29b-41d4-a716-446655440000";
    add(&mut multipart_instance, "user_uuid", test_uuid_str);

    // Test UUID parsing
    let parsed_uuid: uuid::Uuid = multipart_instance.post("user_uuid").unwrap();
    let expected_uuid = uuid::Uuid::parse_str(test_uuid_str).unwrap();
    assert_eq!(parsed_uuid, expected_uuid);

    // Test with Option<Uuid>
    let optional_uuid: Option<uuid::Uuid> = multipart_instance.post("user_uuid").unwrap();
    assert_eq!(optional_uuid, Some(expected_uuid));

    // Test missing optional UUID
    let missing_uuid: Option<uuid::Uuid> = multipart_instance.post("missing_uuid").unwrap();
    assert_eq!(missing_uuid, None);

    // Test invalid UUID format
    add(&mut multipart_instance, "invalid_uuid", "not-a-valid-uuid");

    let result: Result<uuid::Uuid, _> = multipart_instance.post("invalid_uuid");
    assert!(result.is_err());

    let error_message = result.unwrap_err().message();
    assert!(error_message.contains("invalid_uuid"));
    assert!(error_message.contains("not-a-valid-uuid"));
    assert!(error_message.contains("uuid::Uuid"));
}

// Test 17: Comprehensive UUID integration test
#[test]
fn test_uuid_comprehensive_integration() {
    let mut multipart_instance = Multipart::new();

    // Test various UUID formats and use cases
    let uuids = vec![
        ("user_id", "550e8400-e29b-41d4-a716-446655440000"),
        ("session_id", "6ba7b810-9dad-11d1-80b4-00c04fd430c8"),
        ("request_id", "01234567-89ab-cdef-0123-456789abcdef"),
        ("trace_id", "f47ac10b-58cc-4372-a567-0e02b2c3d479"),
    ];

    // Add all UUID test data
    for (field, uuid_str) in &uuids {
        add(&mut multipart_instance, field, uuid_str);
    }

    // Test parsing all UUIDs
    for (field, uuid_str) in &uuids {
        let parsed: uuid::Uuid = multipart_instance.post(field).unwrap();
        let expected = uuid::Uuid::parse_str(uuid_str).unwrap();
        assert_eq!(parsed, expected);

        // Test with Option
        let optional: Option<uuid::Uuid> = multipart_instance.post(field).unwrap();
        assert_eq!(optional, Some(expected));
    }

    // Test post_or with UUID default
    let default_uuid = uuid::Uuid::new_v4();
    let result_uuid = multipart_instance.post_or("missing_uuid", default_uuid);
    assert_eq!(result_uuid, default_uuid);

    // Test post_opt
    let opt_result: Option<uuid::Uuid> = multipart_instance.post_opt("missing_uuid");
    assert_eq!(opt_result, None);

    let opt_existing: Option<uuid::Uuid> = multipart_instance.post_opt("user_id");
    assert!(opt_existing.is_some());
}

#[test]
fn a_failed_segment_ends_a_file_and_is_passed_over_elsewhere() {
    assert_eq!(on_chunk_failure(PartKind::File), ChunkAction::Fail);
    assert_eq!(on_chunk_failure(PartKind::Data), ChunkAction::Skip);
    assert_eq!(on_chunk_failure(PartKind::Skipped), ChunkAction::Skip);
}

#[test]
fn a_part_is_classified_from_its_headers() {
    let kind = |d: Option<&str>| classify_part(&part(d, None, vec![]).headers);
    assert_eq!(kind(None), PartKind::Skipped);
    assert_eq!(kind(Some("form-data")), PartKind::Skipped);
    assert_eq!(
        kind(Some("form-data; filename=\"a.txt\"")),
        PartKind::Skipped
    );
    assert_eq!(kind(Some("form-data; name=\"a\"")), PartKind::Data);
    assert_eq!(
        kind(Some("form-data; name=\"a\"; filename=\"a.txt\"")),
        PartKind::File
    );
}

#[test]
fn the_empty_field_message_names_the_type() {
    let mut multipart = Multipart::new();
    add(&mut multipart, "e", "  ");
    add(&mut multipart, "n", "abc");
    for (outcome, expected) in [
        (
            multipart.post::<i32>("e").map(|_| ()),
            "Field 'e' is empty and cannot be parsed as i32",
        ),
        (
            multipart.post::<String>("e").map(|_| ()),
            "Field 'e' is empty and cannot be parsed as alloc::string::String",
        ),
        (
            multipart.post::<uuid::Uuid>("e").map(|_| ()),
            "Field 'e' is empty and cannot be parsed as uuid::Uuid",
        ),
        (
            multipart.post::<std::path::PathBuf>("e").map(|_| ()),
            "Field 'e' is empty and cannot be parsed as std::path::PathBuf",
        ),
        (
            multipart.post::<i32>("n").map(|_| ()),
            "Failed to parse field 'n' with value 'abc' as i32: invalid digit found in string",
        ),
        (
            multipart.post::<char>("n").map(|_| ()),
            "Failed to parse field 'n' with value 'abc' as char: too many characters in string",
        ),
    ] {
        match outcome {
            Err(MultipartError::ParseError(msg)) => assert_eq!(msg, expected),
            other => panic!("unexpected outcome: {other:?}"),
        }
    }
}

#[test]
fn valid_segments_give_the_text_that_they_encode() {
    let mut multipart = Multipart::new();
    multipart
        .accept_part(part(
            Some("form-data; name=\"t\""),
            None,
            vec![
                Bytes::from_static("h\u{e9}".as_bytes()),
                Bytes::from_static(b""),
                Bytes::from_static("llo \u{1F44D}".as_bytes()),
            ],
        ))
        .unwrap();
    assert_eq!(
        multipart.first_data("t").unwrap().value,
        "h\u{e9}llo \u{1F44D}"
    );
    // a character split over two segments is invalid in each of them
    multipart
        .accept_part(part(
            Some("form-data; name=\"s\""),
            None,
            vec![Bytes::from_static(&[0xC3]), Bytes::from_static(&[0xA9])],
        ))
        .unwrap();
    assert_eq!(
        multipart.first_data("s").unwrap().value,
        "\u{FFFD}\u{FFFD}"
    );
}

#[test]
fn a_disposition_that_is_no_text_skips_the_part() {
    let mut headers = HeaderMap::new();
    headers.insert(
        HeaderName::from_str("content-disposition").unwrap(),
        HeaderValue::from_bytes(&[0xFF, 0xFE]).unwrap(),
    );
    assert_eq!(classify_part(&headers), PartKind::Skipped);
    let mut multipart = Multipart::new();
    multipart
        .accept_part(RawPart {
            headers,
            chunks: vec![Bytes::from_static(b"x")],
        })
        .unwrap();
    assert!(multipart.all_data().is_empty());
    assert!(multipart.all_files().is_empty());
}
