use mbr::bytes::format_bytes;
use mbr::config::{Config, ConfigService, EnvConfigReader};
use mbr::data::OffsetManager;
use mbr::display::TableDisplay;
use mbr::error::{
    ApiError, AppError, AuthError, CliError, ConfigError, DisplayError, ErrorSeverity,
    QuestionError, ServiceError, UtilsError,
};
use mbr::memory::MemoryEstimator;
use mbr::models::{Collection, Column, JsonValue, QueryData, QueryResult, Question};
use mbr::session::now_iso8601;
use mbr::text::{
    center_text, format_datetime, pad_to_width, truncate_text, truncate_text_simple,
    truncate_text_unicode, fitting_prefix,
};
use mbr::validation::validate_url;
use mbr::wrap::wrap_text;

fn create_test_question(id: u32, name: &str) -> Question {
    Question {
        id,
        name: name.to_string(),
        description: Some("Test description".to_string()),
        collection_id: Some(1),
        collection: Some(Collection {
            id: Some(1),
            name: "Test Collection".to_string(),
        }),
    }
}

fn num(n: i64) -> JsonValue {
    JsonValue::Number(n.to_string())
}

fn text(s: &str) -> JsonValue {
    JsonValue::String(s.to_string())
}

fn two_columns() -> Vec<Column> {
    vec![
        Column {
            name: "id".to_string(),
            display_name: "ID".to_string(),
            base_type: "type/Integer".to_string(),
        },
        Column {
            name: "name".to_string(),
            display_name: "Name".to_string(),
            base_type: "type/Text".to_string(),
        },
    ]
}

fn create_test_query_result(rows: usize, cols: usize) -> QueryResult {
    let columns: Vec<Column> = (0..cols)
        .map(|i| Column {
            name: format!("col_{}", i),
            display_name: format!("Column {}", i),
            base_type: "type/Text".to_string(),
        })
        .collect();
    let rows_data: Vec<Vec<JsonValue>> = (0..rows)
        .map(|i| (0..cols).map(|j| text(&format!("row_{}_col_{}", i, j))).collect())
        .collect();
    QueryResult {
        data: QueryData {
            cols: columns,
            rows: rows_data,
        },
    }
}

fn offset_query_result() -> QueryResult {
    QueryResult {
        data: QueryData {
            cols: two_columns(),
            rows: vec![
                vec![num(1), text("Alice")],
                vec![num(2), text("Bob")],
                vec![num(3), text("Charlie")],
                vec![num(4), text("David")],
                vec![num(5), text("Eve")],
            ],
        },
    }
}

#[test]
fn test_set_url() {
    let config = Config::default();
    let mut service = ConfigService::new(config);

    service.set_url("http://localhost:3000".to_string());

    assert!(service.has_url());
    assert_eq!(service.get_url(), Some("http://localhost:3000".to_string()));
}

#[test]
fn test_config_service_new() {
    let config = Config::default();
    let service = ConfigService::with_env_url(config, None);
    assert!(!service.has_url());
}

#[test]
fn test_get_url_returns_option() {
    let config = Config::default();
    let service = ConfigService::with_env_url(config, None);
    assert!(service.get_url().is_none());
}

#[test]
fn config_service_prefers_configured_url_over_environment() {
    let mut config = Config::default();
    config.set_url("http://configured".to_string());
    let service = ConfigService::with_env_url(config, Some("http://env".to_string()));
    assert_eq!(service.get_url(), Some("http://configured".to_string()));

    let service = ConfigService::with_env_url(Config::default(), Some("http://env".to_string()));
    assert_eq!(service.get_url(), Some("http://env".to_string()));
}

#[test]
fn test_table_display_creation() {
    let display = TableDisplay::new();
    assert!(display.use_colors);

    let display = TableDisplay::new().with_max_width(80).with_colors(false);
    assert_eq!(display.max_width, Some(80));
    assert!(!display.use_colors);
}

#[test]
fn test_render_question_list() {
    let display = TableDisplay::new();
    let questions = vec![
        create_test_question(1, "Test Question 1"),
        create_test_question(2, "Test Question 2"),
    ];

    let result = display.render_question_list(&questions);
    assert!(result.is_ok());

    let table_str = result.expect("Failed to render question list");
    assert!(table_str.contains("Test Question 1"));
    assert!(table_str.contains("Test Question 2"));
    assert!(table_str.contains("Test Coll"));
}

#[test]
fn test_format_cell_value() {
    let display = TableDisplay::new();

    assert_eq!(display.format_cell_value(&JsonValue::Null), "-");
    assert_eq!(display.format_cell_value(&text("text")), "text");
    assert_eq!(display.format_cell_value(&num(123)), "123");
    assert_eq!(display.format_cell_value(&JsonValue::Bool(true)), "true");

    let long_string = "a".repeat(150);
    let result = display.format_cell_value(&text(&long_string));
    assert!(result.len() <= 103);
    assert!(result.ends_with("..."));

    assert_eq!(display.format_cell_value(&JsonValue::Array(vec![])), "[]");
    assert_eq!(display.format_cell_value(&JsonValue::Object(vec![])), "{}");

    assert_eq!(
        display.format_cell_value(&JsonValue::Array(vec![num(1), num(2), num(3)])),
        "[3 items]"
    );
    assert_eq!(
        display.format_cell_value(&JsonValue::Object(vec![
            ("a".to_string(), num(1)),
            ("b".to_string(), num(2)),
        ])),
        "{2 items}"
    );
}

#[test]
fn test_render_query_result() {
    let display = TableDisplay::new();
    let result = QueryResult {
        data: QueryData {
            cols: two_columns(),
            rows: vec![
                vec![num(1), text("Alice")],
                vec![num(2), text("Bob")],
                vec![num(3), JsonValue::Null],
            ],
        },
    };

    let rendered = display.render_query_result(&result);
    assert!(rendered.is_ok());

    let table_str = rendered.expect("Failed to render query result");
    assert!(table_str.contains("ID"));
    assert!(table_str.contains("Name"));
    assert!(table_str.contains("Alice"));
    assert!(table_str.contains("Bob"));
    assert!(table_str.contains("-"));
}

#[test]
fn test_extract_collection_name() {
    let display = TableDisplay::new();

    let question_with_collection = create_test_question(1, "Test");
    assert_eq!(
        display.extract_collection_name(&question_with_collection),
        "Test Collection"
    );

    let question_with_id = Question {
        id: 2,
        name: "Test".to_string(),
        description: None,
        collection_id: Some(42),
        collection: None,
    };
    assert_eq!(display.extract_collection_name(&question_with_id), "ID: 42");

    let question_root = Question {
        id: 3,
        name: "Test".to_string(),
        description: None,
        collection_id: None,
        collection: None,
    };
    assert_eq!(display.extract_collection_name(&question_root), "Root");
}

#[test]
fn test_error_display_formats() {
    assert!(CliError::InvalidArguments("test".into())
        .to_display_string()
        .contains("test"));
    assert!(ApiError::Timeout {
        timeout_secs: 10,
        endpoint: "ep".into()
    }
    .to_display_string()
    .contains("10"));
    assert!(ConfigError::FileNotFound {
        path: "p".into(),
        hint: "h".into()
    }
    .to_display_string()
    .contains("p"));
    assert!(ServiceError::AuthService {
        message: "m".into()
    }
    .to_display_string()
    .contains("m"));
    assert!(UtilsError::Validation {
        message: "v".into()
    }
    .to_display_string()
    .contains("v"));
}

#[test]
fn test_error_variants_constructible() {
    assert!(matches!(
        CliError::AuthRequired {
            message: "".into(),
            hint: "".into(),
            available_profiles: vec![]
        },
        CliError::AuthRequired { .. }
    ));
    assert!(matches!(
        ApiError::Unauthorized {
            status: 401,
            endpoint: "".into(),
            server_message: "".into()
        },
        ApiError::Unauthorized { .. }
    ));
    assert!(matches!(
        ApiError::Http {
            status: 400,
            endpoint: "".into(),
            message: "".into()
        },
        ApiError::Http { .. }
    ));
    assert!(matches!(
        ConfigError::MissingField {
            field: "".into(),
            field_type: "".into()
        },
        ConfigError::MissingField { .. }
    ));
    assert!(matches!(
        ConfigError::InvalidValue {
            field: "".into(),
            value: "".into(),
            reason: "".into()
        },
        ConfigError::InvalidValue { .. }
    ));
}

#[test]
fn test_app_error_severity() {
    assert_eq!(
        AppError::Api(ApiError::Unauthorized {
            status: 401,
            endpoint: "".into(),
            server_message: "".into()
        })
        .severity(),
        ErrorSeverity::High
    );
    assert_eq!(
        AppError::Api(ApiError::Http {
            status: 500,
            endpoint: "".into(),
            message: "".into()
        })
        .severity(),
        ErrorSeverity::High
    );
    assert_eq!(
        AppError::Api(ApiError::Http {
            status: 400,
            endpoint: "".into(),
            message: "".into()
        })
        .severity(),
        ErrorSeverity::Medium
    );
    assert_eq!(
        AppError::Config(ConfigError::FileNotFound {
            path: "".into(),
            hint: "".into()
        })
        .severity(),
        ErrorSeverity::High
    );
    assert_eq!(
        AppError::Display(DisplayError::Pagination("".into())).severity(),
        ErrorSeverity::Low
    );
    assert_eq!(
        AppError::Service(ServiceError::AuthService { message: "".into() }).severity(),
        ErrorSeverity::High
    );
}

#[test]
fn test_app_error_conversion() {
    let cli: AppError = CliError::InvalidArguments("".into()).into();
    let api: AppError = ApiError::Timeout {
        timeout_secs: 1,
        endpoint: "".into(),
    }
    .into();
    let config: AppError = ConfigError::FileNotFound {
        path: "".into(),
        hint: "".into(),
    }
    .into();
    assert!(matches!(cli, AppError::Cli(_)));
    assert!(matches!(api, AppError::Api(_)));
    assert!(matches!(config, AppError::Config(_)));
}

#[test]
fn test_troubleshooting_hints() {
    assert!(AppError::Auth(AuthError::InvalidCredentials)
        .troubleshooting_hint()
        .is_some());
    assert!(AppError::Api(ApiError::Timeout {
        timeout_secs: 1,
        endpoint: "".into()
    })
    .troubleshooting_hint()
    .is_some());
    assert!(AppError::Question(QuestionError::NotFound { id: 1 })
        .troubleshooting_hint()
        .is_some());
    assert!(AppError::Display(DisplayError::Pagination("".into()))
        .troubleshooting_hint()
        .is_none());
}

#[test]
fn test_config_default() {
    let config = Config::default();
    assert!(config.url.is_none());
}

#[test]
fn test_url_management() {
    let mut config = Config::default();
    assert!(config.url.is_none());

    config.set_url("http://example.test".to_string());
    assert_eq!(config.url, Some("http://example.test".to_string()));
}

#[test]
fn test_now_iso8601_format() {
    let ts = now_iso8601();
    assert!(ts.ends_with('Z'));
    assert_eq!(ts.len(), 20);
    assert_eq!(&ts[4..5], "-");
    assert_eq!(&ts[10..11], "T");
}

#[test]
fn iso8601_of_known_instants() {
    assert_eq!(mbr::session::iso8601_from_secs(0), "1970-01-01T00:00:00Z");
    assert_eq!(mbr::session::iso8601_from_secs(951782400), "2000-02-29T00:00:00Z");
    assert_eq!(mbr::session::iso8601_from_secs(1700000000), "2023-11-14T22:13:20Z");
    assert_eq!(mbr::session::epoch_days_to_date(19358), (2023, 1, 1));
}

#[test]
fn epoch_days_across_leap_and_century_years() {
    assert_eq!(mbr::session::epoch_days_to_date(0), (1970, 1, 1));
    assert_eq!(mbr::session::epoch_days_to_date(1095), (1972, 12, 31));
    assert_eq!(mbr::session::epoch_days_to_date(11016), (2000, 2, 29));
    assert_eq!(mbr::session::epoch_days_to_date(19782), (2024, 2, 29));
    assert_eq!(mbr::session::epoch_days_to_date(47541), (2100, 3, 1));
    assert_eq!(mbr::session::epoch_days_to_date(157419), (2400, 12, 31));
}

#[test]
fn test_remaining_records() {
    assert_eq!(OffsetManager::new(Some(2)).remaining_records(5), 3);
    assert_eq!(OffsetManager::new(Some(5)).remaining_records(5), 0);
    assert_eq!(OffsetManager::new(Some(10)).remaining_records(5), 0);
}

#[test]
fn test_apply_offset() {
    let original = offset_query_result();

    let result = OffsetManager::new(Some(0)).apply_offset(&original).unwrap();
    assert_eq!(result.data.rows.len(), 5);

    let result = OffsetManager::new(Some(2)).apply_offset(&original).unwrap();
    assert_eq!(result.data.rows.len(), 3);
    assert_eq!(result.data.rows[0][0], num(3));

    let result = OffsetManager::new(Some(5)).apply_offset(&original).unwrap();
    assert_eq!(result.data.rows.len(), 0);
    assert_eq!(result.data.cols.len(), 2);

    assert!(OffsetManager::new(Some(10)).apply_offset(&original).is_err());
}

#[test]
fn test_format_bytes() {
    assert_eq!(format_bytes(0), "0 B");
    assert_eq!(format_bytes(512), "512 B");
    assert_eq!(format_bytes(1024), "1.0 KB");
    assert_eq!(format_bytes(1536), "1.5 KB");
    assert_eq!(format_bytes(1048576), "1.0 MB");
    assert_eq!(format_bytes(1073741824), "1.0 GB");
}

#[test]
fn format_bytes_rounds_like_one_decimal_formatting() {
    assert_eq!(format_bytes(1023), "1023 B");
    assert_eq!(format_bytes(1075), "1.0 KB");
    assert_eq!(format_bytes(1997), "2.0 KB");
    assert_eq!(format_bytes(1024 * 1024 * 1024 * 1024), "1.0 TB");
    assert_eq!(format_bytes(5 * 1024 * 1024 * 1024 * 1024 * 1024), "5120.0 TB");
}

#[test]
fn test_estimate_value_memory() {
    assert_eq!(mbr::memory::estimate_value_memory(&JsonValue::Null), 8);
    assert_eq!(mbr::memory::estimate_value_memory(&JsonValue::Bool(true)), 8);
    assert_eq!(mbr::memory::estimate_value_memory(&num(42)), 24);
    assert_eq!(mbr::memory::estimate_value_memory(&text("hello")), 5 + 24);
}

#[test]
fn test_estimate_query_result_memory() {
    let result = create_test_query_result(100, 5);
    let memory_mb = MemoryEstimator::estimate_query_result_memory(&result);
    assert!(memory_mb > 0);
    assert!(memory_mb < 100);
}

#[test]
fn test_memory_limit_check() {
    let small_result = create_test_query_result(10, 3);
    assert!(MemoryEstimator::is_within_memory_limit(&small_result, 100));

    let large_result = create_test_query_result(10000, 50);
    assert!(!MemoryEstimator::is_within_memory_limit(&large_result, 1));
}

#[test]
fn test_chunk_query_result() {
    let result = create_test_query_result(100, 5);
    let chunks = MemoryEstimator::chunk_query_result_by(&result, 7);
    assert_eq!(chunks.len(), 15);
    let total_rows: usize = chunks.iter().map(|c| c.data.rows.len()).sum();
    assert_eq!(total_rows, 100);
    assert_eq!(chunks[1].data.rows[0], result.data.rows[7]);
    assert_eq!(chunks[14].data.rows.len(), 2);

    let whole = MemoryEstimator::chunk_query_result_by(&result, 100);
    assert_eq!(whole.len(), 1);
    assert_eq!(whole[0], result);
}

#[test]
fn test_memory_report() {
    let result = create_test_query_result(50, 3);
    let report = MemoryEstimator::generate_memory_report(&result);

    assert_eq!(report.row_count, 50);
    assert_eq!(report.column_count, 3);
    assert!(report.total_memory_mb > 0);

    let display_string = report.to_display_string();
    assert!(display_string.contains("Memory Usage Report"));
    assert!(display_string.contains("50 rows"));
    assert!(display_string.contains("3 columns"));
}

#[test]
fn test_bytes_to_mb() {
    assert_eq!(MemoryEstimator::bytes_to_mb(0), 1);
    assert_eq!(MemoryEstimator::bytes_to_mb(1024 * 1024), 1);
    assert_eq!(MemoryEstimator::bytes_to_mb(2 * 1024 * 1024), 2);
}

#[test]
fn test_format_datetime() {
    assert_eq!(format_datetime("2023-12-25T10:30:00.000Z"), "2023-12-25");
    assert_eq!(format_datetime("2023-12-25"), "2023-12-25");
    assert_eq!(format_datetime("invalid"), "invalid");
    assert_eq!(format_datetime(""), "");
}

#[test]
fn test_wrap_text() {
    let text = "This is a long text that needs wrapping";
    let wrapped = wrap_text(text, 10);
    assert_eq!(wrapped.len(), 4);
    assert_eq!(wrapped[0], "This is a");
    assert_eq!(wrapped[1], "long text");
    assert_eq!(wrapped[2], "that needs");
    assert_eq!(wrapped[3], "wrapping");

    assert_eq!(wrap_text("", 10), vec![""]);

    let long_word = "superlongword";
    let wrapped = wrap_text(long_word, 5);
    assert_eq!(wrapped[0], "super");
    assert_eq!(wrapped[1], "longw");
    assert_eq!(wrapped[2], "ord");
}

#[test]
fn test_truncate_text() {
    assert_eq!(truncate_text("Hello", 10), "Hello");
    assert_eq!(truncate_text("Hello World!", 8), "Hello...");
}

#[test]
fn test_truncate_text_unicode() {
    assert_eq!(truncate_text_unicode("Hello", 10), "Hello");
    assert_eq!(truncate_text_unicode("Hello World!", 8), "Hello...");
    assert_eq!(truncate_text_unicode("", 5), "");
}

#[test]
fn truncate_text_unicode_counts_display_width() {
    assert_eq!(truncate_text_unicode("日本語テキスト", 8), "日本...");
}

#[test]
fn test_truncate_text_simple() {
    assert_eq!(truncate_text_simple("short", 10), "short");
    assert_eq!(truncate_text_simple("this is a long text", 10), "this is...");
    assert_eq!(truncate_text_simple("test", 3), "...");
    assert_eq!(truncate_text_simple("", 5), "");
}

#[test]
fn test_pad_to_width() {
    assert_eq!(pad_to_width("Hello", 10), "Hello     ");
    assert_eq!(pad_to_width("Hello World", 5), "Hello World");
    assert_eq!(pad_to_width("Text", 10), "Text      ");
}

#[test]
fn test_center_text() {
    assert_eq!(center_text("Hi", 6), "  Hi  ");
    assert_eq!(center_text("Hello", 5), "Hello");
    assert_eq!(center_text("Hi", 12), "     Hi     ");
}

#[test]
fn test_validate_url_accepts_valid_urls() {
    assert!(validate_url("http://localhost:3000").is_ok());
    assert!(validate_url("https://metabase.example.com").is_ok());
}

#[test]
fn test_validate_url_rejects_invalid_urls() {
    assert!(validate_url("").is_err());
    assert!(validate_url("localhost:3000").is_err());
    assert!(validate_url("ftp://example.com").is_err());
}

#[test]
fn test_read_page_size_with_invalid_value() {
    let result = EnvConfigReader::page_size_from(Some("invalid".to_string()));
    assert!(result.is_none());
}

#[test]
fn test_read_page_size_with_valid_value() {
    let result = EnvConfigReader::page_size_from(Some("50".to_string()));
    assert_eq!(result, Some(50));
}

#[test]
fn test_read_max_memory_with_valid_value() {
    let result = EnvConfigReader::max_memory_from(Some("1024".to_string()));
    assert_eq!(result, Some(1024));
}

#[test]
fn test_read_no_color_default() {
    assert!(!EnvConfigReader::no_color_from(None));
    assert!(EnvConfigReader::no_color_from(Some("1".to_string())));
}

#[test]
fn memory_chunks_grow_until_the_limit() {
    let data: Vec<i32> = (1..=10).collect();
    let chunks =
        MemoryEstimator::create_memory_efficient_chunks(&data, 1, |c: &[i32]| c.len() * 300_000);
    let lens: Vec<usize> = chunks.iter().map(|c| c.len()).collect();
    assert_eq!(lens, vec![3, 3, 3, 1]);
    assert_eq!(chunks[1], &[4, 5, 6][..]);
    assert_eq!(chunks[3], &[10][..]);
}

#[test]
fn memory_chunks_single_rows_when_each_is_too_large() {
    let data = vec![7u8, 8, 9];
    let chunks =
        MemoryEstimator::create_memory_efficient_chunks(&data, 1, |c: &[u8]| c.len() * 2_000_000);
    assert_eq!(chunks.len(), 3);
    assert_eq!(chunks[2], &[9u8][..]);
}

#[test]
fn memory_chunks_of_nothing() {
    let data: Vec<i32> = Vec::new();
    let chunks = MemoryEstimator::create_memory_efficient_chunks(&data, 10, |c: &[i32]| c.len());
    assert!(chunks.is_empty());
}

#[test]
fn memory_chunks_all_at_once_when_small() {
    let data = vec![1, 2, 3, 4];
    let chunks = MemoryEstimator::create_memory_efficient_chunks(&data, 1, |c: &[i32]| c.len());
    assert_eq!(chunks.len(), 1);
    assert_eq!(chunks[0], &[1, 2, 3, 4][..]);
}

#[test]
fn wrapped_lines_fit_the_width() {
    let text = "The quick brown fox jumps over the lazy dog and keeps running far away";
    for width in [5usize, 8, 12, 20] {
        let lines = wrap_text(text, width);
        assert!(lines.iter().all(|l| l.len() <= width), "width {}", width);
    }
    let long = wrap_text("abcdefghijklmnop qr", 5);
    assert_eq!(long, vec!["abcde", "fghij", "klmno", "p qr"]);
}

#[test]
fn fitting_prefix_stays_in_budget() {
    assert_eq!(fitting_prefix("日本語テキスト", 5), "日本");
    assert_eq!(fitting_prefix("abc", 10), "abc");
    assert_eq!(fitting_prefix("abc", 0), "");
}

#[test]
fn run_rows_are_limited_unless_full() {
    let result = create_test_query_result(10, 2);
    let limited = mbr::cli::limit_run_rows(create_test_query_result(10, 2), false, 3);
    assert_eq!(limited.data.rows.len(), 3);
    assert_eq!(limited.data.rows[2], result.data.rows[2]);
    let full = mbr::cli::limit_run_rows(create_test_query_result(10, 2), true, 3);
    assert_eq!(full.data.rows.len(), 10);
    let small = mbr::cli::limit_run_rows(create_test_query_result(10, 2), false, 50);
    assert_eq!(small.data.rows.len(), 10);
}

#[test]
fn run_csv_lines_join_names_and_cells() {
    let result = QueryResult {
        data: QueryData {
            cols: vec![
                Column { name: "a".to_string(), display_name: "A".to_string(), base_type: "t".to_string() },
                Column { name: "b".to_string(), display_name: "B".to_string(), base_type: "t".to_string() },
            ],
            rows: vec![vec![JsonValue::Number("1".to_string()), JsonValue::Null]],
        },
    };
    let display = TableDisplay::new().with_colors(false);
    assert_eq!(display.csv_lines(&result), vec!["A,B".to_string(), "1,-".to_string()]);
}

#[test]
fn estimates_of_ordinary_results_fit() {
    assert!(mbr::memory::check_estimates_fit(&create_test_query_result(100, 5).data));
    assert!(mbr::memory::check_estimates_fit(&create_test_query_result(0, 0).data));
    assert_eq!(mbr::memory::checked_value_bytes(&JsonValue::String("abc".to_string())), Some(27));
    assert_eq!(
        mbr::memory::checked_value_bytes(&JsonValue::Array(vec![JsonValue::Null, JsonValue::Bool(true)])),
        Some(40)
    );
}
