use mikoyan::coerce::{collect_array, millis_of_value};
use mikoyan::millis::{millis_from_text, whole_u32_from_text};
use mikoyan::{
    normalize_at, normalize_user, num_to_datetime, CompletedChallenge, DateTime, DoubleText,
    Field, NOption, NormalizeError, ObjectId, Record, Timestamp, ToMillis, Value,
};

fn text(s: &str) -> Value {
    Value::Text(s.to_string())
}

fn record(fields: Vec<(&str, Value)>) -> Record {
    Record {
        fields: fields
            .into_iter()
            .map(|(k, v)| Field { key: k.to_string(), value: v })
            .collect(),
    }
}

fn user_doc(email: Value) -> Record {
    record(vec![
        ("_id", Value::ObjectId(ObjectId { bytes: [7; 12] })),
        ("email", email),
        ("username", text("username")),
        ("unsubscribeId", text("some-uuid")),
    ])
}

#[test]
fn normalize_bad_email_user() {
    let result = normalize_user(user_doc(Value::Null));
    assert!(matches!(result, Err(NormalizeError::MissingRequiredField { .. })));

    let result = normalize_user(user_doc(text("")));
    assert!(matches!(result, Err(NormalizeError::MissingRequiredField { .. })));
}

#[test]
fn test_num_to_datetime() {
    let num = 1614556800;
    let dt = num_to_datetime(&num.to_string()).unwrap();
    assert_eq!(dt.timestamp_millis(), 1614556800000);
}

#[test]
fn test_to_millis() {
    let num = 1614556800;
    assert_eq!(num.to_millis(), 1614556800000);
}

#[test]
fn test_to_millis_float() {
    let num_1 = 1614556800.0;
    let num_2 = 1614556800.123;
    assert_eq!(DoubleText::new(f64::to_string(&num_1)).to_millis(), 1614556800000);
    assert_eq!(DoubleText::new(f64::to_string(&num_2)).to_millis(), 1614556800000);
}

#[test]
fn test_to_millis_datetime() {
    let num = 1614556800;
    let dt = DateTime::from_millis(num);
    assert_eq!(dt.to_millis(), 1614556800000);
}

#[test]
fn test_to_millis_timestamp() {
    let num = 1614556800;
    let ts = Timestamp { time: num, increment: 0 };
    assert_eq!(ts.to_millis(), 1614556800000);
}

#[test]
fn every_representation_of_an_instant_agrees() {
    let values = vec![
        Value::Int64(1614556800),
        Value::Int64(1614556800000),
        Value::Int32(1614556800),
        Value::DateTime(DateTime::from_millis(1614556800000)),
        Value::DateTime(DateTime::from_millis(1614556800)),
        Value::Timestamp(Timestamp { time: 1614556800, increment: 3 }),
        Value::Double(DoubleText::new(f64::to_string(&1614556800.5))),
        Value::Double(DoubleText::new(f64::to_string(&1614556800000.0))),
    ];
    for v in values.iter() {
        assert_eq!(millis_of_value(v), Some(1614556800000));
    }
}

#[test]
fn millis_edge_cases() {
    assert_eq!((-5i64).to_millis(), 0);
    assert_eq!(999_999_999u64.to_millis(), 999_999_999);
    assert_eq!(10_000_000_000u64.to_millis(), 10_000_000_000);
    assert_eq!(millis_from_text("NaN"), Some(0));
    assert_eq!(millis_from_text("-3.5"), Some(0));
    assert_eq!(millis_from_text(".5"), Some(0));
    assert_eq!(millis_from_text("123456789012345678901234"), None);
    assert_eq!(millis_of_value(&text("1614556800")), None);
    assert!(num_to_datetime("abc").is_none());
}

#[test]
fn double_casts_to_u32_saturating() {
    assert_eq!(whole_u32_from_text("42.9"), 42);
    assert_eq!(whole_u32_from_text("-3.5"), 0);
    assert_eq!(whole_u32_from_text("NaN"), 0);
    assert_eq!(whole_u32_from_text("inf"), u32::MAX);
    assert_eq!(whole_u32_from_text("99999999999"), u32::MAX);
}

#[test]
fn missing_identity_is_ambiguous_and_kept_whole() {
    let doc = record(vec![("email", text("a@b.c")), ("username", Value::Int32(3))]);
    match normalize_at(doc, 5) {
        Err(NormalizeError::AmbiguousIdentity { doc }) => {
            assert_eq!(doc.fields.len(), 2);
            assert_eq!(doc.fields[0].key, "email");
        }
        other => panic!("unexpected result {:?}", other),
    }
    let doc = record(vec![("_id", text("not an object id")), ("email", text("a@b.c"))]);
    assert!(matches!(normalize_at(doc, 5), Err(NormalizeError::AmbiguousIdentity { .. })));
}

#[test]
fn absent_email_is_missing_required_field() {
    let doc = record(vec![("_id", Value::ObjectId(ObjectId { bytes: [1; 12] }))]);
    match normalize_at(doc, 5) {
        Err(NormalizeError::MissingRequiredField { doc }) => assert_eq!(doc.fields.len(), 1),
        other => panic!("unexpected result {:?}", other),
    }
}

#[test]
fn wrong_typed_field_is_unrecoverable_shape() {
    let mut doc = user_doc(text("a@b.c"));
    doc.fields.push(Field { key: "isBanned".to_string(), value: text("yes") });
    match normalize_at(doc, 5) {
        Err(NormalizeError::UnrecoverableShape { id, cause }) => {
            assert_eq!(id.bytes, [7; 12]);
            assert_eq!(cause, "isBanned");
        }
        other => panic!("unexpected result {:?}", other),
    }
}

#[test]
fn normalizes_with_defaults_and_stamp() {
    let mut doc = user_doc(text("a@b.c"));
    doc.fields.push(Field { key: "newEmail".to_string(), value: Value::Null });
    doc.fields.push(Field { key: "isDonating".to_string(), value: Value::Boolean(true) });
    doc.fields.push(Field { key: "unknownExtra".to_string(), value: Value::Other });
    let u = normalize_at(doc, 1234).unwrap();
    assert_eq!(u.id.bytes, [7; 12]);
    assert_eq!(u.email, "a@b.c");
    assert_eq!(u.username, "username");
    assert_eq!(u.unsubscribe_id, "some-uuid");
    assert_eq!(u.name, "");
    assert_eq!(u.new_email, NOption::Null);
    assert_eq!(u.external_id, NOption::Undefined);
    assert!(u.is_donating);
    assert!(!u.is_banned);
    assert!(u.profile_ui.is_locked);
    assert!(!u.profile_ui.show_name);
    assert_eq!(u.last_updated_at_in_ms, 1234);
    assert!(u.completed_challenges.is_empty());
}

fn challenge(id: Option<&str>, date: Value) -> Value {
    let mut fields = vec![("completedDate", date), ("challengeType", Value::Int32(5))];
    if let Some(id) = id {
        fields.push(("id", text(id)));
    }
    Value::Document(record(fields))
}

#[test]
fn failing_array_element_is_omitted() {
    let items = vec![
        challenge(Some("first"), Value::Int64(1614556800)),
        challenge(None, Value::Int64(1614556800)),
        challenge(Some("bad-date"), text("yesterday")),
        text("not a document"),
        challenge(Some("last"), Value::Int64(1614556800123)),
    ];
    let out: Vec<CompletedChallenge> = collect_array(&items, 1700000000000);
    assert_eq!(out.len(), 3);
    assert_eq!(out[0].id, "first");
    assert_eq!(out[0].completed_date, 1614556800000);
    assert_eq!(out[0].challenge_type, NOption::Present(5));
    assert_eq!(out[0].github_link, NOption::Undefined);
    assert_eq!(out[1].id, "bad-date");
    assert_eq!(out[1].completed_date, 1700000000000);
    assert_eq!(out[2].id, "last");
    assert_eq!(out[2].completed_date, 1614556800123);

    let mut doc = user_doc(text("a@b.c"));
    doc.fields.push(Field { key: "completedChallenges".to_string(), value: Value::Array(items) });
    let u = normalize_at(doc, 1).unwrap();
    assert_eq!(u.completed_challenges.len(), 3);
    assert_eq!(u.completed_challenges[1].completed_date, 1);
}

#[test]
fn repeated_key_rejects_the_element() {
    let mut repeated = record(vec![("id", text("a")), ("completedDate", Value::Int64(5))]);
    repeated.fields.push(Field { key: "id".to_string(), value: text("b") });
    let items = vec![Value::Document(repeated), challenge(Some("ok"), Value::Int64(5))];
    let out: Vec<CompletedChallenge> = collect_array(&items, 0);
    assert_eq!(out.len(), 1);
    assert_eq!(out[0].id, "ok");
}

#[test]
fn timestamp_seconds_are_always_seconds() {
    assert_eq!(Timestamp { time: 5, increment: 0 }.to_millis(), 5000);
    assert_eq!(millis_of_value(&Value::Timestamp(Timestamp { time: 5, increment: 1 })), Some(5000));
}

fn exam(percent: Value) -> Value {
    Value::Document(record(vec![
        ("challengeType", Value::Int32(17)),
        ("completedDate", Value::Int64(1614556800)),
        ("id", text("exam-1")),
        (
            "examResults",
            Value::Document(record(vec![
                ("examTimeInSeconds", Value::Int32(600)),
                ("numberOfCorrectAnswers", Value::Int32(18)),
                ("numberOfQuestionsInExam", Value::Int32(20)),
                ("passed", Value::Boolean(true)),
                ("passingPercent", Value::Double(DoubleText::new(f64::to_string(&70.5)))),
                ("percentCorrect", percent),
            ])),
        ),
    ]))
}

#[test]
fn exams_keep_their_scores() {
    let items = vec![
        exam(Value::Double(DoubleText::new(f64::to_string(&90.0)))),
        exam(text("ninety")),
    ];
    let out: Vec<mikoyan::CompletedExam> = collect_array(&items, 0);
    assert_eq!(out.len(), 1);
    assert_eq!(out[0].challenge_type, 17);
    assert_eq!(out[0].completed_date, 1614556800000);
    assert_eq!(out[0].exam_results.number_of_correct_answers, 18);
    assert!(out[0].exam_results.passed);
    assert_eq!(out[0].exam_results.passing_percent.text, "70.5");
    assert_eq!(out[0].exam_results.percent_correct.text, "90");
}

#[test]
fn every_schema_field_is_carried() {
    let mut doc = user_doc(text("a@b.c"));
    doc.fields.push(Field { key: "githubProfile".to_string(), value: text("gh") });
    doc.fields.push(Field { key: "isHonest".to_string(), value: Value::Boolean(true) });
    doc.fields.push(Field { key: "is2018DataVisCert".to_string(), value: Value::Boolean(true) });
    doc.fields.push(Field {
        key: "donationEmails".to_string(),
        value: Value::Array(vec![text("d@x"), Value::Int32(1)]),
    });
    doc.fields.push(Field {
        key: "yearsTopContributor".to_string(),
        value: Value::Array(vec![Value::Int32(2019), text("2020")]),
    });
    doc.fields.push(Field {
        key: "emailVerifyTTL".to_string(),
        value: Value::DateTime(DateTime::from_millis(9)),
    });
    let u = normalize_at(doc, 3).unwrap();
    assert_eq!(u.github_profile, "gh");
    assert!(u.is_honest && u.is_2018_data_vis_cert && !u.needs_moderation);
    assert_eq!(u.donation_emails, vec!["d@x".to_string()]);
    assert_eq!(u.years_top_contributor, vec![2019]);
    assert_eq!(u.email_verify_ttl, NOption::Present(DateTime::from_millis(9)));
    assert_eq!(u.email_auth_link_ttl, NOption::Undefined);
    assert_eq!(u.rand.text, "0");

    let mut bad = user_doc(text("a@b.c"));
    bad.fields.push(Field { key: "rand".to_string(), value: text("x") });
    assert!(matches!(
        normalize_at(bad, 3),
        Err(NormalizeError::UnrecoverableShape { cause, .. }) if cause == "rand"
    ));
}
