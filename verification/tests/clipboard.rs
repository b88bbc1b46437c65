use mbr::clipboard::{
    format_record_csv, format_record_json, format_record_tsv, format_records_csv,
    format_records_json, format_records_tsv, to_snake_case, CopyFormat,
};

#[test]
fn test_to_snake_case() {
    assert_eq!(to_snake_case("UserId"), "user_id");
    assert_eq!(to_snake_case("firstName"), "first_name");
    assert_eq!(to_snake_case("HTTPRequest"), "http_request");
    assert_eq!(to_snake_case("HTTPProxy"), "http_proxy");
    assert_eq!(to_snake_case("already_snake"), "already_snake");
    assert_eq!(to_snake_case("With Spaces"), "with_spaces");
    assert_eq!(to_snake_case("kebab-case"), "kebab_case");
    assert_eq!(to_snake_case("XMLParser"), "xml_parser");
    assert_eq!(to_snake_case("getHTTPResponse"), "get_http_response");
}

#[test]
fn test_format_record_csv_with_header() {
    let columns = vec!["id".to_string(), "name".to_string()];
    let values = vec!["123".to_string(), "Test".to_string()];
    let result = format_record_csv(&columns, &values, true);
    assert_eq!(result, "id,name\n123,Test");
}

#[test]
fn test_format_record_csv_without_header() {
    let columns = vec!["id".to_string(), "name".to_string()];
    let values = vec!["123".to_string(), "Test".to_string()];
    let result = format_record_csv(&columns, &values, false);
    assert_eq!(result, "123,Test");
}

#[test]
fn test_format_record_csv_escape() {
    let columns = vec!["name".to_string()];
    let values = vec!["Hello, \"World\"".to_string()];
    let result = format_record_csv(&columns, &values, false);
    assert_eq!(result, "\"Hello, \"\"World\"\"\"");
}

#[test]
fn test_format_record_tsv_with_header() {
    let columns = vec!["id".to_string(), "name".to_string()];
    let values = vec!["123".to_string(), "Test".to_string()];
    let result = format_record_tsv(&columns, &values, true);
    assert_eq!(result, "id\tname\n123\tTest");
}

#[test]
fn test_format_record_tsv_escape() {
    let columns = vec!["desc".to_string()];
    let values = vec!["Line1\tLine2\nLine3".to_string()];
    let result = format_record_tsv(&columns, &values, false);
    assert_eq!(result, "Line1 Line2 Line3");
}

#[test]
fn test_format_record_json_preserves_order() {
    let columns = vec![
        "ZField".to_string(),
        "AField".to_string(),
        "MField".to_string(),
    ];
    let values = vec![
        "z_val".to_string(),
        "a_val".to_string(),
        "m_val".to_string(),
    ];
    let result = format_record_json(&columns, &values);
    let z_pos = result.find("z_field").unwrap();
    let a_pos = result.find("a_field").unwrap();
    let m_pos = result.find("m_field").unwrap();
    assert!(z_pos < a_pos, "ZField should come before AField");
    assert!(a_pos < m_pos, "AField should come before MField");
}

#[test]
fn test_format_record_json_snake_case() {
    let columns = vec![
        "UserId".to_string(),
        "FirstName".to_string(),
        "lastLoginDate".to_string(),
    ];
    let values = vec![
        "1".to_string(),
        "John".to_string(),
        "2024-01-01".to_string(),
    ];
    let result = format_record_json(&columns, &values);
    assert!(result.contains("\"user_id\": \"1\""));
    assert!(result.contains("\"first_name\": \"John\""));
    assert!(result.contains("\"last_login_date\": \"2024-01-01\""));
}

#[test]
fn format_record_json_exact_text() {
    let columns = vec!["Id".to_string(), "Name".to_string()];
    let values = vec!["7".to_string(), "Ann".to_string()];
    assert_eq!(
        format_record_json(&columns, &values),
        "{\n  \"id\": \"7\",\n  \"name\": \"Ann\"\n}"
    );
}

#[test]
fn format_records_join_rows_and_header_once() {
    let cols = vec!["a".to_string(), "b".to_string()];
    let records = vec![
        (cols.clone(), vec!["1".to_string(), "x,y".to_string()]),
        (cols.clone(), vec!["2".to_string(), "z".to_string()]),
    ];
    assert_eq!(format_records_csv(&records, true), "a,b\n1,\"x,y\"\n2,z");
    assert_eq!(format_records_csv(&records, false), "1,\"x,y\"\n2,z");
    assert_eq!(format_records_tsv(&records, true), "a\tb\n1\tx,y\n2\tz");
    assert_eq!(format_records_csv(&[], true), "");
    let json = format_records_json(&records);
    assert!(json.starts_with('['));
    assert!(json.contains("\"b\": \"x,y\""));
}

#[test]
fn csv_fields_with_newlines_are_quoted() {
    let columns = vec!["c".to_string()];
    let values = vec!["a\nb".to_string()];
    assert_eq!(format_record_csv(&columns, &values, false), "\"a\nb\"");
}

#[test]
fn copy_formats_have_labels_and_keys() {
    assert_eq!(CopyFormat::default_format(), CopyFormat::Json);
    assert_eq!(CopyFormat::Csv.key(), 'c');
    assert_eq!(CopyFormat::Json.key(), 'j');
    assert_eq!(CopyFormat::Tsv.key(), 't');
    assert_eq!(CopyFormat::Tsv.label(), "TSV");
}

#[test]
fn one_record_as_many_matches_one_record() {
    let c = vec!["a b".to_string(), "x,y".to_string()];
    let v = vec!["1".to_string(), "say \"hi\"".to_string()];
    for h in [true, false] {
        assert_eq!(
            mbr::clipboard::format_records_csv(&[(c.clone(), v.clone())], h),
            mbr::clipboard::format_record_csv(&c, &v, h)
        );
        assert_eq!(
            mbr::clipboard::format_records_tsv(&[(c.clone(), v.clone())], h),
            mbr::clipboard::format_record_tsv(&c, &v, h)
        );
    }
}
