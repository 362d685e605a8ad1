use submission_gateway::outcome::LocalError;
use submission_gateway::policy::{
    SnapshotPriority, SnapshotUploadingParam, SnapshottingParam, WaitTimeout,
};
use submission_gateway::query::{
    decode_priority, decode_timeout, decode_wait, parse_bool, parse_priority, parse_u64,
    values_for,
};

fn pairs(items: &[(&str, &str)]) -> Vec<(String, String)> {
    items.iter().map(|(k, v)| (k.to_string(), v.to_string())).collect()
}

fn bad_input(message: &str) -> LocalError {
    LocalError::BadInput(message.to_string())
}

#[test]
fn numbers_are_read_in_base_ten() {
    assert_eq!(parse_u64("0"), Some(0));
    assert_eq!(parse_u64("10"), Some(10));
    assert_eq!(parse_u64("007"), Some(7));
    assert_eq!(parse_u64("+42"), Some(42));
    assert_eq!(parse_u64("18446744073709551615"), Some(u64::MAX));
    assert_eq!(parse_u64("000018446744073709551615"), Some(u64::MAX));
}

#[test]
fn what_is_no_number_is_refused() {
    assert_eq!(parse_u64(""), None);
    assert_eq!(parse_u64("+"), None);
    assert_eq!(parse_u64("-1"), None);
    assert_eq!(parse_u64("1.5"), None);
    assert_eq!(parse_u64("12a"), None);
    assert_eq!(parse_u64(" 1"), None);
    assert_eq!(parse_u64("++1"), None);
    assert_eq!(parse_u64("١٢"), None);
}

#[test]
fn numbers_out_of_range_are_refused() {
    assert_eq!(parse_u64("18446744073709551616"), None);
    assert_eq!(parse_u64("99999999999999999999"), None);
    assert_eq!(parse_u64("184467440737095516150"), None);
}

#[test]
fn numbers_agree_with_the_standard_parser() {
    let texts = [
        "0",
        "1",
        "+1",
        "-0",
        "",
        "+",
        "0x10",
        "18446744073709551615",
        "18446744073709551616",
        "1_000",
        "٣",
    ];
    for text in texts {
        assert_eq!(parse_u64(text), text.parse::<u64>().ok(), "{text:?}");
    }
}

#[test]
fn truth_values_are_spelled_out() {
    assert_eq!(parse_bool("true"), Some(true));
    assert_eq!(parse_bool("false"), Some(false));
    assert_eq!(parse_bool("True"), None);
    assert_eq!(parse_bool("1"), None);
    assert_eq!(parse_bool(""), None);
}

#[test]
fn priorities_are_spelled_out() {
    assert_eq!(parse_priority("snapshot"), Some(SnapshotPriority::Snapshot));
    assert_eq!(parse_priority("replica"), Some(SnapshotPriority::Replica));
    assert_eq!(parse_priority("Replica"), None);
    assert_eq!(parse_priority(""), None);
}

#[test]
fn values_are_collected_in_order() {
    let pairs = pairs(&[("a", "1"), ("b", "2"), ("a", "3"), ("c", ""), ("a", "")]);
    assert_eq!(values_for(&pairs, "a"), vec!["1".to_string(), "3".to_string(), String::new()]);
    assert_eq!(values_for(&pairs, "b"), vec!["2".to_string()]);
    assert_eq!(values_for(&pairs, "d"), Vec::<String>::new());
    assert_eq!(values_for(&Vec::new(), "a"), Vec::<String>::new());
}

#[test]
fn absent_parameters_are_none() {
    assert_eq!(decode_timeout(&pairs(&[])), Ok(None));
    assert_eq!(decode_wait(&pairs(&[("timeout", "1")])), Ok(None));
    assert_eq!(decode_priority(&pairs(&[("wait", "true")])), Ok(None));
}

#[test]
fn unknown_parameters_are_passed_over() {
    let given = pairs(&[("other", "x"), ("timeout", "5"), ("more", "")]);
    assert_eq!(decode_timeout(&given), Ok(Some(5)));
    let params = WaitTimeout::from_query("verbose=1&timeout=7").unwrap();
    assert_eq!(params.timeout, Some(7));
}

#[test]
fn unreadable_value_is_bad_input() {
    assert_eq!(
        decode_timeout(&pairs(&[("timeout", "soon")])),
        Err(bad_input("Query deserialize error: invalid value for field `timeout`"))
    );
    assert_eq!(
        decode_wait(&pairs(&[("wait", "yes")])),
        Err(bad_input("Query deserialize error: invalid value for field `wait`"))
    );
    assert_eq!(
        decode_priority(&pairs(&[("priority", "high")])),
        Err(bad_input("Query deserialize error: invalid value for field `priority`"))
    );
    assert_eq!(
        WaitTimeout::from_query("timeout="),
        Err(bad_input("Query deserialize error: invalid value for field `timeout`"))
    );
    assert_eq!(
        WaitTimeout::from_query("timeout"),
        Err(bad_input("Query deserialize error: invalid value for field `timeout`"))
    );
    assert_eq!(
        WaitTimeout::from_query("timeout=-1"),
        Err(bad_input("Query deserialize error: invalid value for field `timeout`"))
    );
}

#[test]
fn repeated_parameter_is_bad_input() {
    assert_eq!(
        decode_timeout(&pairs(&[("timeout", "1"), ("timeout", "2")])),
        Err(bad_input("Query deserialize error: duplicate field `timeout`"))
    );
    assert_eq!(
        SnapshottingParam::from_query("wait=true&wait=true"),
        Err(bad_input("Query deserialize error: duplicate field `wait`"))
    );
}

#[test]
fn unreadable_first_value_is_named_before_repetition() {
    assert_eq!(
        decode_timeout(&pairs(&[("timeout", "x"), ("timeout", "2")])),
        Err(bad_input("Query deserialize error: invalid value for field `timeout`"))
    );
    assert_eq!(
        decode_timeout(&pairs(&[("timeout", "2"), ("timeout", "x")])),
        Err(bad_input("Query deserialize error: duplicate field `timeout`"))
    );
}

#[test]
fn percent_escapes_are_resolved() {
    assert_eq!(WaitTimeout::from_query("timeout=%31%30").unwrap().timeout, Some(10));
    assert_eq!(WaitTimeout::from_query("%74imeout=3").unwrap().timeout, Some(3));
    assert_eq!(WaitTimeout::from_query("timeout=%2B5").unwrap().timeout, Some(5));
    assert_eq!(
        WaitTimeout::from_query("timeout=+5"),
        Err(bad_input("Query deserialize error: invalid value for field `timeout`"))
    );
}

#[test]
fn wait_is_decoded() {
    assert_eq!(SnapshottingParam::from_query("").unwrap().wait, None);
    assert_eq!(SnapshottingParam::from_query("wait=false").unwrap().wait, Some(false));
    assert_eq!(SnapshottingParam::from_query("wait=true").unwrap().wait, Some(true));
    assert_eq!(SnapshottingParam::from_query("timeout=3").unwrap().wait, None);
}

#[test]
fn upload_parameters_are_decoded() {
    assert_eq!(
        SnapshotUploadingParam::from_query("").unwrap(),
        SnapshotUploadingParam { wait: None, priority: None }
    );
    assert_eq!(
        SnapshotUploadingParam::from_query("priority=snapshot&wait=false").unwrap(),
        SnapshotUploadingParam { wait: Some(false), priority: Some(SnapshotPriority::Snapshot) }
    );
    assert_eq!(
        SnapshotUploadingParam::from_query("priority=replica").unwrap(),
        SnapshotUploadingParam { wait: None, priority: Some(SnapshotPriority::Replica) }
    );
}

#[test]
fn bad_wait_is_named_before_bad_priority() {
    assert_eq!(
        SnapshotUploadingParam::from_query("priority=high&wait=maybe"),
        Err(bad_input("Query deserialize error: invalid value for field `wait`"))
    );
    assert_eq!(
        SnapshotUploadingParam::from_query("priority=high&wait=true"),
        Err(bad_input("Query deserialize error: invalid value for field `priority`"))
    );
}

#[test]
fn largest_timeout_is_decoded() {
    assert_eq!(
        WaitTimeout::from_query("timeout=18446744073709551615").unwrap().timeout,
        Some(u64::MAX)
    );
    assert_eq!(
        WaitTimeout::from_query("timeout=18446744073709551616"),
        Err(bad_input("Query deserialize error: invalid value for field `timeout`"))
    );
}
