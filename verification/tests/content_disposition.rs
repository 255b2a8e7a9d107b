use foxtive_ntex::ContentDisposition;

// Test for creating a ContentDisposition instance from a valid content disposition string
#[test]
fn test_create_valid_disposition() {
    let content_disposition = "form-data; name=\"file\"; filename=\"example.txt\"";
    let content = ContentDisposition::create(content_disposition);

    // Check that the variables map is correctly populated
    assert_eq!(content.get_variable("name"), Some("file"));
    assert_eq!(content.get_variable("filename"), Some("example.txt"));

    // Check file and name field presence
    assert!(content.is_file_field());
    assert!(content.has_name_field());
}

// Test for creating a ContentDisposition instance with no filename (not a file field)
#[test]
fn test_create_no_filename() {
    let content_disposition = "form-data; name=\"file\"";
    let content = ContentDisposition::create(content_disposition);

    // Check that the variables map is correctly populated
    assert_eq!(content.get_variable("name"), Some("file"));
    assert_eq!(content.get_variable("filename"), None);

    // Check file and name field presence
    assert!(!content.is_file_field());
    assert!(content.has_name_field());
}

// Test for creating a ContentDisposition instance with an empty string
#[test]
fn test_create_empty_disposition() {
    let content_disposition = "";
    let content = ContentDisposition::create(content_disposition);

    // Check that no variables are set
    assert!(content.get_variables().is_empty());
    assert!(!content.is_file_field());
    assert!(!content.has_name_field());
}

// Test for parsing a content disposition string with multiple parameters
#[test]
fn test_parse_multiple_parameters() {
    let content_disposition =
        "form-data; name=\"file\"; filename=\"example.txt\"; another_param=\"value\"";
    let result = ContentDisposition::parse(content_disposition);

    // Check variables map is correctly populated
    assert_eq!(result.variables.get("name"), Some(&"file".to_string()));
    assert_eq!(
        result.variables.get("filename"),
        Some(&"example.txt".to_string())
    );
    assert_eq!(
        result.variables.get("another_param"),
        Some(&"value".to_string())
    );

    // Check file and name field presence
    assert!(result.is_file_field);
    assert!(result.has_name_field);
}

// Test for parsing content disposition with only "name"
#[test]
fn test_parse_name_only() {
    let content_disposition = "form-data; name=\"file\"";
    let result = ContentDisposition::parse(content_disposition);

    // Check variables map is correctly populated
    assert_eq!(result.variables.get("name"), Some(&"file".to_string()));

    // Check file and name field presence
    assert!(!result.is_file_field);
    assert!(result.has_name_field);
}

// Test for parsing content disposition with only "filename"
#[test]
fn test_parse_filename_only() {
    let content_disposition = "form-data; filename=\"example.txt\"";
    let result = ContentDisposition::parse(content_disposition);

    // Check variables map is correctly populated
    assert_eq!(
        result.variables.get("filename"),
        Some(&"example.txt".to_string())
    );

    // Check file and name field presence
    assert!(result.is_file_field);
    assert!(!result.has_name_field);
}

// Test for parsing content disposition with no fields
#[test]
fn test_parse_no_fields() {
    let content_disposition = "form-data";
    let result = ContentDisposition::parse(content_disposition);

    // Check that the variables map is empty
    assert!(result.variables.is_empty());

    // Check file and name field presence
    assert!(!result.is_file_field);
    assert!(!result.has_name_field);
}

// Test for parsing content disposition with quoted values
#[test]
fn test_parse_quoted_values() {
    let content_disposition = r#"form-data; name="some name"; filename="test.txt""#;
    let result = ContentDisposition::parse(content_disposition);

    // Check that variables are parsed correctly, without quotes
    assert_eq!(result.variables.get("name"), Some(&"some name".to_string()));
    assert_eq!(
        result.variables.get("filename"),
        Some(&"test.txt".to_string())
    );

    // Check file and name field presence
    assert!(result.is_file_field);
    assert!(result.has_name_field);
}

// Test for retrieving variables from ContentDisposition
#[test]
fn test_get_variable() {
    let content_disposition = "form-data; name=\"file\"; filename=\"example.txt\"";
    let content = ContentDisposition::create(content_disposition);

    // Test getting variables
    assert_eq!(content.get_variable("name"), Some("file"));
    assert_eq!(content.get_variable("filename"), Some("example.txt"));
    assert_eq!(content.get_variable("nonexistent"), None);
}

// Test for getting all variables
#[test]
fn test_get_variables() {
    let content_disposition = "form-data; name=\"file\"; filename=\"example.txt\"";
    let content = ContentDisposition::create(content_disposition);

    // Check the whole map of variables
    let variables = content.get_variables();
    assert_eq!(variables.get("name"), Some(&"file".to_string()));
    assert_eq!(variables.get("filename"), Some(&"example.txt".to_string()));
}

// Test for content disposition with extra spaces
#[test]
fn test_parse_with_spaces() {
    let content_disposition = " form-data ;  name = \"file\" ;  filename  =  \"example.txt\"  ";
    let result = ContentDisposition::parse(content_disposition);

    // Check that values are parsed correctly with extra spaces
    assert_eq!(result.variables.get("name"), Some(&"file".to_string()));
    assert_eq!(
        result.variables.get("filename"),
        Some(&"example.txt".to_string())
    );
}

#[test]
fn quotes_are_stripped_one_layer_only() {
    let content = ContentDisposition::create("form-data; name=\"\"a\"\"; other=\"b");
    assert_eq!(content.get_variable("name"), Some("\"a\""));
    assert_eq!(content.get_variable("other"), Some("b"));
}

#[test]
fn value_may_hold_an_equals_sign() {
    let content = ContentDisposition::create("form-data; name=\"a=b\"");
    assert_eq!(content.get_name(), Some("a=b"));
    assert_eq!(content.get_filename(), None);
}

#[test]
fn later_parameter_replaces_earlier() {
    let content = ContentDisposition::create("name=\"first\"; name=\"second\"");
    assert_eq!(content.get_name(), Some("second"));
    assert_eq!(content.get_variables().len(), 1);
}

#[test]
fn whitespace_inside_quotes_is_kept() {
    let content = ContentDisposition::create("name = \" padded \" ");
    assert_eq!(content.get_name(), Some(" padded "));
}
