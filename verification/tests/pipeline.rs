use cost_notifier::config::Config;
use cost_notifier::errors::TaskError;
use cost_notifier::fetch::{build_query, query_for_yesterday, select_datapoint, Datapoint};
use cost_notifier::date::Date;
use cost_notifier::message::build_message;
use cost_notifier::notify::{check_status, confirmation_message, json_escape, prepare_post, slack_payload};

fn point(timestamp: Option<&str>, maximum_micros: Option<u64>) -> Datapoint {
    Datapoint {
        timestamp: timestamp.map(|t| t.to_string()),
        maximum_micros,
    }
}

#[test]
fn message_for_low_cost() {
    let m = build_message(&point(Some("2024-03-15T00:00:00Z"), Some(420000))).unwrap();
    assert_eq!(m.text, "2024年03月15日までのAWSの料金は、$0.42です。");
    assert!(m.text.contains("2024年03月15日"));
    assert!(m.text.contains("$0.42"));
    assert_eq!(m.color, "good");
}

#[test]
fn message_for_middling_cost() {
    let m = build_message(&point(Some("2024-03-15T00:00:00Z"), Some(750000))).unwrap();
    assert_eq!(m.color, "warning");
}

#[test]
fn message_for_high_cost() {
    let m = build_message(&point(Some("2024-03-15T00:00:00Z"), Some(3200000))).unwrap();
    assert_eq!(m.color, "#ff0000");
}

#[test]
fn message_with_offset_timestamp() {
    let m = build_message(&point(Some("2024-03-15T23:30:00+09:00"), Some(100000))).unwrap();
    assert_eq!(m.text, "2024年03月15日までのAWSの料金は、$0.1です。");
}

#[test]
fn message_without_maximum_defaults_to_zero() {
    let m = build_message(&point(Some("2024-03-15T00:00:00Z"), None)).unwrap();
    assert_eq!(m.text, "2024年03月15日までのAWSの料金は、$0です。");
    assert_eq!(m.color, "good");
}

#[test]
fn message_without_timestamp_fails() {
    assert_eq!(
        build_message(&point(None, Some(420000))).unwrap_err(),
        TaskError::TimestampMissing
    );
}

#[test]
fn message_with_bad_timestamp_fails() {
    assert_eq!(
        build_message(&point(Some("yesterday at noon"), Some(420000))).unwrap_err(),
        TaskError::TimestampInvalid
    );
}

#[test]
fn empty_datapoint_list_is_an_explicit_error() {
    assert_eq!(
        select_datapoint(Vec::new()).unwrap_err(),
        TaskError::NoDatapoints
    );
    assert_eq!(
        prepare_post(Vec::new(), "#billing").unwrap_err(),
        TaskError::NoDatapoints
    );
}

#[test]
fn first_datapoint_is_selected() {
    let points = vec![
        point(Some("2024-03-15T00:00:00Z"), Some(420000)),
        point(Some("2024-03-14T00:00:00Z"), Some(990000)),
    ];
    let dp = select_datapoint(points).unwrap();
    assert_eq!(dp.timestamp.as_deref(), Some("2024-03-15T00:00:00Z"));
    assert_eq!(dp.maximum_micros, Some(420000));
}

#[test]
fn payload_for_one_datapoint() {
    let points = vec![point(Some("2024-03-15T00:00:00Z"), Some(420000))];
    let body = prepare_post(points, "#billing").unwrap();
    assert_eq!(
        body,
        "{\"channel\":\"#billing\",\"attachments\":[{\"text\":\"2024年03月15日までのAWSの料金は、$0.42です。\",\"color\":\"good\"}]}"
    );
}

#[test]
fn payload_escapes_its_strings() {
    let m = build_message(&point(Some("2024-03-15T00:00:00Z"), Some(420000))).unwrap();
    let body = slack_payload("a\"b\\c\nd", &m);
    assert!(body.starts_with("{\"channel\":\"a\\\"b\\\\c\\nd\",\"attachments\":"));
}

#[test]
fn json_escaping() {
    assert_eq!(json_escape("plain text"), "plain text");
    assert_eq!(json_escape("a\"b"), "a\\\"b");
    assert_eq!(json_escape("a\\b"), "a\\\\b");
    assert_eq!(json_escape("a\nb\rc\td"), "a\\nb\\rc\\td");
    assert_eq!(json_escape("\u{1}\u{1f}"), "\\u0001\\u001f");
    assert_eq!(json_escape("日本語"), "日本語");
}

#[test]
fn missing_post_url_fails_before_anything_else() {
    assert_eq!(
        Config::from_values(None, Some("#billing".to_string())).unwrap_err(),
        TaskError::MissingPostUrl
    );
}

#[test]
fn missing_channel_fails() {
    assert_eq!(
        Config::from_values(Some("https://example.invalid/hook".to_string()), None).unwrap_err(),
        TaskError::MissingChannel
    );
}

#[test]
fn complete_config_is_accepted() {
    let c = Config::from_values(
        Some("https://example.invalid/hook".to_string()),
        Some("#billing".to_string()),
    )
    .unwrap();
    assert_eq!(c.post_url, "https://example.invalid/hook");
    assert_eq!(c.channel, "#billing");
}

#[test]
fn server_error_status_is_reported() {
    assert_eq!(check_status(500).unwrap_err(), TaskError::WebhookStatus(500));
    assert_eq!(check_status(404).unwrap_err(), TaskError::WebhookStatus(404));
    assert_eq!(check_status(199).unwrap_err(), TaskError::WebhookStatus(199));
    assert_eq!(check_status(300).unwrap_err(), TaskError::WebhookStatus(300));
}

#[test]
fn success_statuses_are_accepted() {
    assert!(check_status(200).is_ok());
    assert!(check_status(204).is_ok());
    assert!(check_status(299).is_ok());
}

#[test]
fn confirmation_names_destination_and_channel() {
    assert_eq!(
        confirmation_message("https://example.invalid/hook", "#billing"),
        "Send message to https://example.invalid/hook#billing"
    );
}

#[test]
fn error_reports() {
    assert_eq!(
        TaskError::MissingPostUrl.message(),
        "environment variable SLACK_POST_URL is not set"
    );
    assert_eq!(
        TaskError::NoDatapoints.message(),
        "no billing datapoints were returned for yesterday"
    );
    assert_eq!(
        TaskError::WebhookStatus(500).message(),
        "the webhook responded with HTTP status 500"
    );
}

#[test]
fn query_for_fixed_date() {
    let q = build_query(Date { year: 2024, month: 3, day: 1 });
    assert_eq!(q.namespace, "AWS/Billing");
    assert_eq!(q.metric_name, "EstimatedCharges");
    assert_eq!(q.dimension_name, "Currency");
    assert_eq!(q.dimension_value, "USD");
    assert_eq!(q.statistic, "Maximum");
    assert_eq!(q.period, 86400);
    assert_eq!(q.start_time, "2024-02-29T00:00:00+00:00");
    assert_eq!(q.end_time, "2024-03-01T00:00:00+00:00");
}

#[test]
fn query_for_yesterday_is_well_formed() {
    let q = query_for_yesterday().unwrap();
    assert_eq!(q.namespace, "AWS/Billing");
    assert_eq!(q.period, 86400);
    assert!(q.start_time.ends_with("T00:00:00+00:00"));
    assert!(q.end_time.ends_with("T00:00:00+00:00"));
    assert_ne!(q.start_time, q.end_time);
}
