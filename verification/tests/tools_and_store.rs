use csmlinterpreter::bot_store::{all_items, bot_versions_query, decode_bot, first_item, last_bot_version_query, BotDecodeError, VERSIONS_PAGE_SIZE};
use csmlinterpreter::configuration::{base_path_or_default, ApiKey, DEFAULT_BASE_PATH};
use csmlinterpreter::error_format::{gen_error_info, Interval, ERROR_OPS_DIV_INT};
use csmlinterpreter::tools::check_division_by_zero_i64;

#[test]
fn division_check_accepts_nonzero_operands() {
    assert_eq!(check_division_by_zero_i64(12, 4).unwrap(), 12);
    assert_eq!(check_division_by_zero_i64(-7, 2).unwrap(), -7);
}

#[test]
fn division_check_refuses_zero() {
    let e = check_division_by_zero_i64(5, 0).unwrap_err();
    assert_eq!(e.message, "[!] Int: Division by zero");
    assert_eq!(e.interval, Interval { column: 0, line: 0 });
    let e = check_division_by_zero_i64(0, 5).unwrap_err();
    assert_eq!(e.message, ERROR_OPS_DIV_INT);
}

#[test]
fn error_info_holds_what_it_was_given() {
    let e = gen_error_info(Interval { column: 3, line: 9 }, "boom".to_string());
    assert_eq!(e.interval, Interval { column: 3, line: 9 });
    assert_eq!(e.message, "boom");
}

#[test]
fn base_path_defaults() {
    assert_eq!(base_path_or_default(None), "http://localhost:3130");
    assert_eq!(base_path_or_default(None), DEFAULT_BASE_PATH);
    assert_eq!(base_path_or_default(Some("http://engine:80".to_string())), "http://engine:80");
    let key = ApiKey { prefix: Some("Bearer".to_string()), key: "k".to_string() };
    assert_eq!(key.clone(), key);
}

#[test]
fn bot_queries() {
    let q = bot_versions_query("bot_id:42");
    assert_eq!(q.index_name, "TimeIndex");
    assert_eq!(q.key_condition_expression, "#hashKey = :hashVal AND begins_with(#rangeKey, :rangePrefix)");
    assert_eq!(
        q.expression_attribute_names,
        vec![("#hashKey".to_string(), "hash".to_string()), ("#rangeKey".to_string(), "range_time".to_string())]
    );
    assert_eq!(
        q.expression_attribute_values,
        vec![(":hashVal".to_string(), "bot_id:42".to_string()), (":rangePrefix".to_string(), "bot#".to_string())]
    );
    assert_eq!(q.limit, 10);
    assert_eq!(q.limit, VERSIONS_PAGE_SIZE);
    assert_eq!(q.select, "ALL_ATTRIBUTES");
    let last = last_bot_version_query("h");
    assert_eq!(last.limit, 1);
    assert_eq!(last.expression_attribute_values[0].1, "h");
}

#[test]
fn query_items() {
    assert_eq!(all_items::<u8>(None), Vec::<u8>::new());
    assert_eq!(all_items(Some(vec![1, 2])), vec![1, 2]);
    assert_eq!(first_item::<u8>(None), None);
    assert_eq!(first_item::<u8>(Some(vec![])), None);
    assert_eq!(first_item(Some(vec![7, 8])), Some(7));
}

#[test]
fn bot_payload_is_base64() {
    assert_eq!(decode_bot("aGVsbG8=").unwrap(), b"hello".to_vec());
    assert_eq!(decode_bot("").unwrap(), Vec::<u8>::new());
    assert_eq!(decode_bot("not base64!"), Err(BotDecodeError::InvalidBase64));
}
