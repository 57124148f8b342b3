use aa_prompt_client::document::{Document, Member};
use aa_prompt_client::prompt_sequence::{
    LoadError, MatchAttempt, MatchFailure, PromptCase, PromptFilter, PromptSequence,
    TypedPromptCase,
};
use aa_prompt_client::snapd_client::interfaces::home::{
    HomeConstraints, HomeConstraintsFilter, HomeInterface,
};
use aa_prompt_client::snapd_client::{Action, ConstraintsFilter, Prompt, PromptId, PromptReply};

fn document_of(value: &serde_json::Value) -> Document {
    match value {
        serde_json::Value::Null => Document::Null,
        serde_json::Value::Bool(b) => Document::Bool(*b),
        serde_json::Value::Number(n) => {
            if let Some(u) = n.as_u64() {
                Document::Integer(u as i128)
            } else if let Some(i) = n.as_i64() {
                Document::Integer(i as i128)
            } else {
                Document::Decimal(n.to_string())
            }
        }
        serde_json::Value::String(s) => Document::Text(s.clone()),
        serde_json::Value::Array(items) => Document::List(items.iter().map(document_of).collect()),
        serde_json::Value::Object(members) => Document::Record(
            members
                .iter()
                .map(|(key, value)| Member { key: key.clone(), value: document_of(value) })
                .collect(),
        ),
    }
}

fn value_of(document: &Document) -> serde_json::Value {
    match document {
        Document::Null => serde_json::Value::Null,
        Document::Bool(b) => serde_json::Value::Bool(*b),
        Document::Integer(n) => {
            if *n >= 0 {
                serde_json::Value::Number(serde_json::Number::from(*n as u64))
            } else {
                serde_json::Value::Number(serde_json::Number::from(*n as i64))
            }
        }
        Document::Decimal(text) => serde_json::from_str(text).unwrap(),
        Document::Text(text) => serde_json::Value::String(text.clone()),
        Document::List(items) => serde_json::Value::Array(items.iter().map(value_of).collect()),
        Document::Record(members) => serde_json::Value::Object(
            members.iter().map(|m| (m.key.clone(), value_of(&m.value))).collect(),
        ),
    }
}

fn parse(text: &str) -> Document {
    document_of(&serde_json::from_str::<serde_json::Value>(text).unwrap())
}

fn filter_from_str(text: &str) -> Option<PromptFilter<HomeInterface>> {
    PromptFilter::<HomeInterface>::from_document(&parse(text))
}

fn sequence_from_str(text: &str) -> Result<PromptSequence, LoadError> {
    PromptSequence::from_document(&parse(text))
}

fn strings(items: &[&str]) -> Vec<String> {
    items.iter().map(|s| s.to_string()).collect()
}

fn mf(field: &'static str, expected: &str, seen: &str) -> MatchFailure {
    MatchFailure { field, expected: expected.to_string(), seen: seen.to_string() }
}

fn test_prompt() -> Prompt<HomeInterface> {
    Prompt {
        id: PromptId("id".to_string()),
        interface: "home".to_string(),
        timestamp: "".to_string(),
        snap: "test".to_string(),
        constraints: HomeConstraints {
            path: "/home/foo/bar".to_string(),
            permissions: vec!["read".to_string()],
            available_permissions: vec!["read".to_string(), "write".to_string()],
        },
    }
}

const ALL_FIELDS_HOME: &str = r#"{
    "snap": "snapName",
    "interface": "home",
    "constraints": {
        "path": "/home/foo/bar",
        "permissions": ["read"],
        "available-permissions": ["read", "write", "execute"]
    }
}"#;

const SEQUENCE: &str = r#"{
    "version": 1,
    "prompts": [
        {
            "prompt-filter": {
                "snap": "snapName",
                "interface": "home",
                "constraints": {
                    "path": "/home/foo/bar",
                    "permissions": ["read"],
                    "available-permissions": ["read", "write", "execute"]
                }
            },
            "reply": { "action": "allow" }
        }
    ]
}"#;

#[test]
fn simple_serialize_works() {
    let cases = [
        ("all_fields_home.json", ALL_FIELDS_HOME),
        ("empty.json", r#"{}"#),
        ("interface_only.json", r#"{ "interface": "home" }"#),
        ("snap_only.json", r#"{ "snap": "snapName" }"#),
        ("path_only.json", r#"{ "constraints": { "path": "/home/foo/bar" } }"#),
        (
            "permissions_only.json",
            r#"{ "interface": "home", "constraints": { "permissions": ["read", "write"] } }"#,
        ),
        ("empty_constraints.json", r#"{ "constraints": {} }"#),
        ("null_fields.json", r#"{ "snap": null, "interface": null, "constraints": null }"#),
    ];
    for (path, data) in cases {
        let res = filter_from_str(data);

        assert!(res.is_some(), "error parsing {path}: {:?}", res);
    }
}

#[test]
fn all_fields_deserializes_correctly() {
    let res = filter_from_str(ALL_FIELDS_HOME);

    assert!(res.is_some(), "error {:?}", res);

    let filter = res.unwrap();
    match (filter.snap(), filter.interface(), filter.constraints()) {
        (
            snap,
            interface,
            Some(HomeConstraintsFilter { path, permissions, available_permissions }),
        ) => {
            assert_eq!(snap.map(|s| s.as_str()), Some("snapName"));
            assert_eq!(interface.map(|s| s.as_str()), Some("home"));
            assert_eq!(path.as_deref(), Some("/home/foo/bar"));
            assert_eq!(*permissions, Some(vec!["read".to_string()]));
            assert_eq!(
                *available_permissions,
                Some(vec!["read".to_string(), "write".to_string(), "execute".to_string()])
            );
        }
        f => panic!("invalid filter: {f:?}"),
    }
}

#[test]
fn filter_matches() {
    let cases = [
        (r#"{}"#, MatchAttempt::Success),
        (r#"{ "interface": "home" }"#, MatchAttempt::Success),
        (
            r#"{ "interface": "home", "constraints": { "path": "/home/foo/bar" } }"#,
            MatchAttempt::Success,
        ),
        (
            r#"{ "interface": "camera" }"#,
            MatchAttempt::Failure(vec![mf("interface", "\"camera\"", "\"home\"")]),
        ),
        (
            r#"{ "interface": "home", "constraints": { "path": "/home/wrong/path" } }"#,
            MatchAttempt::Failure(vec![mf("path", "\"/home/wrong/path\"", "\"/home/foo/bar\"")]),
        ),
        (
            r#"{ "interface": "camera", "constraints": { "path": "/home/wrong/path" } }"#,
            MatchAttempt::Failure(vec![
                mf("interface", "\"camera\"", "\"home\""),
                mf("path", "\"/home/wrong/path\"", "\"/home/foo/bar\""),
            ]),
        ),
    ];
    for (filter_str, expected) in cases {
        let filter: PromptFilter<HomeInterface> = filter_from_str(filter_str).unwrap();
        let p = test_prompt();

        assert_eq!(filter.matches(&p), expected);
    }
}

#[test]
fn deserialize_prompt_sequence_works() {
    let cases = [
        ("single_home.json", SEQUENCE),
        ("no_prompts.json", r#"{ "version": 1, "prompts": [] }"#),
        (
            "bare_filter.json",
            r#"{ "version": 1, "prompts": [ { "prompt-filter": {}, "reply": { "action": "deny" } } ] }"#,
        ),
    ];
    for (path, data) in cases {
        let res = sequence_from_str(data);

        assert!(res.is_ok(), "error parsing {path}: {:?}", res);
    }
}

#[test]
fn empty_filter_matches_any_prompt() {
    let filter: PromptFilter<HomeInterface> = PromptFilter::default();
    assert_eq!(filter.matches(&test_prompt()), MatchAttempt::Success);

    let other = Prompt {
        id: PromptId("another".to_string()),
        interface: "camera".to_string(),
        timestamp: "2024-01-01T00:00:00Z".to_string(),
        snap: "".to_string(),
        constraints: HomeConstraints::default(),
    };
    assert_eq!(filter.matches(&other), MatchAttempt::Success);
    assert_eq!(filter_from_str("{}").unwrap().matches(&other), MatchAttempt::Success);
}

#[test]
fn interface_mismatch_is_reported() {
    let filter = filter_from_str(r#"{ "interface": "camera" }"#).unwrap();
    assert_eq!(
        filter.matches(&test_prompt()),
        MatchAttempt::Failure(vec![MatchFailure {
            field: "interface",
            expected: "\"camera\"".to_string(),
            seen: "\"home\"".to_string(),
        }])
    );
}

#[test]
fn path_mismatch_is_reported() {
    let filter = filter_from_str(
        r#"{ "interface": "home", "constraints": { "path": "/home/wrong/path" } }"#,
    )
    .unwrap();
    assert_eq!(
        filter.matches(&test_prompt()),
        MatchAttempt::Failure(vec![MatchFailure {
            field: "path",
            expected: "\"/home/wrong/path\"".to_string(),
            seen: "\"/home/foo/bar\"".to_string(),
        }])
    );
}

#[test]
fn snap_match_and_mismatch() {
    let mut filter: PromptFilter<HomeInterface> = PromptFilter::default();
    filter.with_snap("test");
    assert_eq!(filter.matches(&test_prompt()), MatchAttempt::Success);

    let mut filter: PromptFilter<HomeInterface> = PromptFilter::default();
    filter.with_snap("firefox");
    let attempt = filter.matches(&test_prompt());
    assert_eq!(attempt, MatchAttempt::Failure(vec![mf("snap", "\"firefox\"", "\"test\"")]));
    match attempt {
        MatchAttempt::Failure(failures) => {
            assert_eq!(failures.iter().filter(|f| f.field == "snap").count(), 1);
        }
        MatchAttempt::Success => panic!("the filter matched"),
    }
}

#[test]
fn two_top_level_mismatches_come_in_order() {
    let mut filter: PromptFilter<HomeInterface> = PromptFilter::default();
    filter.with_interface("camera").with_snap("firefox");
    assert_eq!(
        filter.matches(&test_prompt()),
        MatchAttempt::Failure(vec![
            mf("snap", "\"firefox\"", "\"test\""),
            mf("interface", "\"camera\"", "\"home\""),
        ])
    );
}

#[test]
fn constraint_mismatches_come_after_top_level_ones() {
    let mut filter: PromptFilter<HomeInterface> = PromptFilter::default();
    filter
        .with_constraints(HomeConstraintsFilter {
            path: Some("/home/wrong/path".to_string()),
            permissions: Some(strings(&["write"])),
            available_permissions: Some(strings(&["read"])),
        })
        .with_snap("firefox")
        .with_interface("camera");
    assert_eq!(
        filter.matches(&test_prompt()),
        MatchAttempt::Failure(vec![
            mf("snap", "\"firefox\"", "\"test\""),
            mf("interface", "\"camera\"", "\"home\""),
            mf("path", "\"/home/wrong/path\"", "\"/home/foo/bar\""),
            mf("permissions", "[\"write\"]", "[\"read\"]"),
            mf("available_permissions", "[\"read\"]", "[\"read\", \"write\"]"),
        ])
    );
}

#[test]
fn home_constraints_are_compared_in_their_order() {
    let filter = HomeConstraintsFilter {
        path: Some("/home/foo/bar".to_string()),
        permissions: Some(strings(&[])),
        available_permissions: Some(strings(&["read", "write", "execute"])),
    };
    assert_eq!(
        filter.matches(&test_prompt().constraints),
        MatchAttempt::Failure(vec![
            mf("permissions", "[]", "[\"read\"]"),
            mf("available_permissions", "[\"read\", \"write\", \"execute\"]", "[\"read\", \"write\"]"),
        ])
    );
    assert_eq!(
        HomeConstraintsFilter::default().matches(&test_prompt().constraints),
        MatchAttempt::Success
    );
}

#[test]
fn permission_lists_are_compared_as_sequences() {
    let same = HomeConstraintsFilter {
        path: None,
        permissions: None,
        available_permissions: Some(strings(&["read", "write"])),
    };
    assert_eq!(same.matches(&test_prompt().constraints), MatchAttempt::Success);

    let swapped = HomeConstraintsFilter {
        path: None,
        permissions: None,
        available_permissions: Some(strings(&["write", "read"])),
    };
    assert_eq!(
        swapped.matches(&test_prompt().constraints),
        MatchAttempt::Failure(vec![mf(
            "available_permissions",
            "[\"write\", \"read\"]",
            "[\"read\", \"write\"]"
        )])
    );
}

#[test]
fn values_are_rendered_with_escapes() {
    let mut filter: PromptFilter<HomeInterface> = PromptFilter::default();
    filter.with_snap("a\"b\\c\nd");
    let mut prompt = test_prompt();
    prompt.snap = "tab\there".to_string();
    assert_eq!(
        filter.matches(&prompt),
        MatchAttempt::Failure(vec![mf("snap", "\"a\\\"b\\\\c\\nd\"", "\"tab\\there\"")])
    );

    let constraints = HomeConstraintsFilter {
        path: None,
        permissions: Some(strings(&["re\"ad"])),
        available_permissions: None,
    };
    assert_eq!(
        constraints.matches(&test_prompt().constraints),
        MatchAttempt::Failure(vec![mf("permissions", "[\"re\\\"ad\"]", "[\"read\"]")])
    );
}

#[test]
fn builders_set_one_attribute_each() {
    let mut filter: PromptFilter<HomeInterface> = PromptFilter::default();
    assert_eq!(filter.snap(), None);
    assert_eq!(filter.interface(), None);
    assert_eq!(filter.constraints(), None);

    filter.with_snap("snapName");
    assert_eq!(filter.snap().map(|s| s.as_str()), Some("snapName"));
    assert_eq!(filter.interface(), None);
    assert_eq!(filter.constraints(), None);

    filter.with_interface("home");
    assert_eq!(filter.snap().map(|s| s.as_str()), Some("snapName"));
    assert_eq!(filter.interface().map(|s| s.as_str()), Some("home"));
    assert_eq!(filter.constraints(), None);

    let constraints = HomeConstraintsFilter {
        path: Some("/home/foo/bar".to_string()),
        permissions: None,
        available_permissions: None,
    };
    filter.with_constraints(constraints.clone());
    assert_eq!(filter.snap().map(|s| s.as_str()), Some("snapName"));
    assert_eq!(filter.interface().map(|s| s.as_str()), Some("home"));
    assert_eq!(filter.constraints(), Some(&constraints));

    filter.with_snap("other");
    assert_eq!(filter.snap().map(|s| s.as_str()), Some("other"));
    assert_eq!(filter, filter_from_str(
        r#"{ "snap": "other", "interface": "home", "constraints": { "path": "/home/foo/bar" } }"#
    ).unwrap());
}

#[test]
fn case_replies_when_the_filter_matches() {
    let mut filter: PromptFilter<HomeInterface> = PromptFilter::default();
    filter.with_interface("home");
    let case = PromptCase::new(filter, PromptReply::new(Action::Allow));
    let reply = case.clone().into_reply_or_error(test_prompt());
    assert_eq!(reply, Ok(PromptReply::new(Action::Allow)));
    assert_eq!(reply.unwrap().action(), Action::Allow);
    assert_eq!(case.reply().action(), Action::Allow);

    let deny = PromptCase::new(PromptFilter::<HomeInterface>::default(), PromptReply::new(Action::Deny));
    assert_eq!(deny.into_reply_or_error(test_prompt()).unwrap().action(), Action::Deny);
}

#[test]
fn case_reports_failures_when_the_filter_does_not_match() {
    let filter = filter_from_str(
        r#"{ "interface": "camera", "constraints": { "path": "/home/wrong/path" } }"#,
    )
    .unwrap();
    let expected = match filter.matches(&test_prompt()) {
        MatchAttempt::Failure(failures) => failures,
        MatchAttempt::Success => panic!("the filter matched"),
    };
    let case = PromptCase::new(filter, PromptReply::new(Action::Allow));
    assert_eq!(
        case.into_reply_or_error(test_prompt()),
        Err(vec![
            mf("interface", "\"camera\"", "\"home\""),
            mf("path", "\"/home/wrong/path\"", "\"/home/foo/bar\""),
        ])
    );
    assert_eq!(expected.len(), 2);
}

#[test]
fn filter_survives_a_round_trip() {
    let texts = [
        r#"{}"#,
        r#"{ "snap": "snapName" }"#,
        r#"{ "interface": "home", "constraints": {} }"#,
        r#"{ "constraints": { "permissions": [], "available-permissions": ["read", "write"] } }"#,
        ALL_FIELDS_HOME,
    ];
    for text in texts {
        let filter = filter_from_str(text).unwrap();
        let written = filter.to_document();
        assert_eq!(PromptFilter::<HomeInterface>::from_document(&written), Some(filter.clone()));

        let printed = serde_json::to_string(&value_of(&written)).unwrap();
        assert_eq!(filter_from_str(&printed), Some(filter.clone()));
        assert_eq!(filter_from_str(&printed).unwrap().to_document(), written);
    }
}

#[test]
fn filter_is_written_with_every_attribute() {
    let mut filter: PromptFilter<HomeInterface> = PromptFilter::default();
    filter.with_snap("snapName");
    assert_eq!(
        value_of(&filter.to_document()),
        serde_json::from_str::<serde_json::Value>(
            r#"{ "snap": "snapName", "interface": null, "constraints": null }"#
        )
        .unwrap()
    );

    let filter = filter_from_str(ALL_FIELDS_HOME).unwrap();
    assert_eq!(
        value_of(&filter.to_document()),
        serde_json::from_str::<serde_json::Value>(ALL_FIELDS_HOME).unwrap()
    );
    assert_eq!(
        filter.to_document(),
        Document::Record(vec![
            Member { key: "snap".to_string(), value: Document::Text("snapName".to_string()) },
            Member { key: "interface".to_string(), value: Document::Text("home".to_string()) },
            Member {
                key: "constraints".to_string(),
                value: Document::Record(vec![
                    Member {
                        key: "path".to_string(),
                        value: Document::Text("/home/foo/bar".to_string()),
                    },
                    Member {
                        key: "permissions".to_string(),
                        value: Document::List(vec![Document::Text("read".to_string())]),
                    },
                    Member {
                        key: "available-permissions".to_string(),
                        value: Document::List(vec![
                            Document::Text("read".to_string()),
                            Document::Text("write".to_string()),
                            Document::Text("execute".to_string()),
                        ]),
                    },
                ]),
            },
        ])
    );
}

#[test]
fn case_and_reply_survive_a_round_trip() {
    let case = PromptCase::new(
        filter_from_str(ALL_FIELDS_HOME).unwrap(),
        PromptReply::<HomeInterface>::new(Action::Deny),
    );
    let written = case.to_document();
    assert_eq!(
        value_of(&written),
        serde_json::from_str::<serde_json::Value>(
            r#"{
                "prompt-filter": {
                    "snap": "snapName",
                    "interface": "home",
                    "constraints": {
                        "path": "/home/foo/bar",
                        "permissions": ["read"],
                        "available-permissions": ["read", "write", "execute"]
                    }
                },
                "reply": { "action": "deny" }
            }"#
        )
        .unwrap()
    );
    assert_eq!(PromptCase::<HomeInterface>::from_document(&written), Some(case.clone()));
    assert_eq!(TypedPromptCase::from_document(&written), Some(TypedPromptCase::Home(case.clone())));
    assert_eq!(TypedPromptCase::Home(case).to_document(), written);

    for action in [Action::Allow, Action::Deny] {
        let reply = PromptReply::<HomeInterface>::new(action);
        assert_eq!(PromptReply::<HomeInterface>::from_document(&reply.to_document()), Some(reply));
    }
}

#[test]
fn failure_is_written_as_a_record() {
    let failure = mf("path", "\"/a\"", "\"/b\"");
    assert_eq!(
        value_of(&failure.to_document()),
        serde_json::from_str::<serde_json::Value>(
            r#"{ "field": "path", "expected": "\"/a\"", "seen": "\"/b\"" }"#
        )
        .unwrap()
    );
    assert_eq!(MatchFailure::new("path", "\"/a\"".to_string(), "\"/b\"".to_string()), failure);
}

#[test]
fn attempt_from_failures() {
    assert_eq!(MatchAttempt::from_failures(vec![]), MatchAttempt::Success);
    assert!(MatchAttempt::from_failures(vec![]).is_success());
    let failures = vec![mf("snap", "\"a\"", "\"b\"")];
    assert_eq!(MatchAttempt::from_failures(failures.clone()), MatchAttempt::Failure(failures.clone()));
    assert!(!MatchAttempt::Failure(failures).is_success());
}

#[test]
fn sequence_keeps_the_order_of_its_entries() {
    let sequence = sequence_from_str(
        r#"{
            "version": 7,
            "prompts": [
                {
                    "prompt-filter": {
                        "snap": "first",
                        "constraints": { "path": "/home/foo/bar", "permissions": ["read"] }
                    },
                    "reply": { "action": "allow" }
                },
                {
                    "prompt-filter": { "interface": "home" },
                    "reply": { "action": "deny" }
                }
            ]
        }"#,
    )
    .unwrap();
    assert_eq!(sequence.version(), 7);
    assert_eq!(sequence.prompts().len(), 2);

    let mut first: PromptFilter<HomeInterface> = PromptFilter::default();
    first.with_snap("first").with_constraints(HomeConstraintsFilter {
        path: Some("/home/foo/bar".to_string()),
        permissions: Some(strings(&["read"])),
        available_permissions: None,
    });
    let mut second: PromptFilter<HomeInterface> = PromptFilter::default();
    second.with_interface("home");
    assert_eq!(
        *sequence.prompts(),
        vec![
            TypedPromptCase::Home(PromptCase::new(first, PromptReply::new(Action::Allow))),
            TypedPromptCase::Home(PromptCase::new(second, PromptReply::new(Action::Deny))),
        ]
    );
    match &sequence.prompts()[0] {
        TypedPromptCase::Home(case) => {
            assert_eq!(case.prompt_filter().snap().map(|s| s.as_str()), Some("first"));
            assert_eq!(case.reply().action(), Action::Allow);
        }
    }
    match &sequence.prompts()[1] {
        TypedPromptCase::Home(case) => {
            assert_eq!(case.prompt_filter().snap(), None);
            assert_eq!(case.reply().action(), Action::Deny);
        }
    }
}

#[test]
fn sequence_from_the_documented_format() {
    let sequence = sequence_from_str(SEQUENCE).unwrap();
    assert_eq!(sequence.version(), 1);
    assert_eq!(
        *sequence.prompts(),
        vec![TypedPromptCase::Home(PromptCase::new(
            filter_from_str(ALL_FIELDS_HOME).unwrap(),
            PromptReply::new(Action::Allow)
        ))]
    );
}

#[test]
fn default_sequence_is_empty() {
    let sequence = PromptSequence::default();
    assert_eq!(sequence.version(), 0);
    assert!(sequence.prompts().is_empty());
    assert_eq!(sequence_from_str(r#"{ "version": 0, "prompts": [] }"#), Ok(sequence));
}

#[test]
fn sequence_ignores_other_keys() {
    let sequence = sequence_from_str(
        r#"{ "comment": [1, 2.5, true], "version": 255, "prompts": [], "extra": { "a": null } }"#,
    )
    .unwrap();
    assert_eq!(sequence.version(), 255);
    assert!(sequence.prompts().is_empty());
}

#[test]
fn malformed_sequences_are_refused() {
    assert_eq!(sequence_from_str(r#"[]"#), Err(LoadError::Malformed));
    assert_eq!(sequence_from_str(r#"null"#), Err(LoadError::Malformed));
    assert_eq!(sequence_from_str(r#""version""#), Err(LoadError::Malformed));
    assert_eq!(sequence_from_str(r#"{ "version": 1 }"#), Err(LoadError::Malformed));
    assert_eq!(sequence_from_str(r#"{ "version": 1, "prompts": null }"#), Err(LoadError::Malformed));
    assert_eq!(sequence_from_str(r#"{ "version": 1, "prompts": {} }"#), Err(LoadError::Malformed));
    let repeated = Document::Record(vec![
        Member { key: "version".to_string(), value: Document::Integer(1) },
        Member { key: "prompts".to_string(), value: Document::List(vec![]) },
        Member { key: "prompts".to_string(), value: Document::List(vec![]) },
    ]);
    assert_eq!(PromptSequence::from_document(&repeated), Err(LoadError::Malformed));
}

#[test]
fn unsupported_versions_are_refused() {
    assert_eq!(sequence_from_str(r#"{}"#), Err(LoadError::UnsupportedVersion));
    assert_eq!(sequence_from_str(r#"{ "prompts": [] }"#), Err(LoadError::UnsupportedVersion));
    assert_eq!(
        sequence_from_str(r#"{ "version": 256, "prompts": [] }"#),
        Err(LoadError::UnsupportedVersion)
    );
    assert_eq!(
        sequence_from_str(r#"{ "version": -1, "prompts": [] }"#),
        Err(LoadError::UnsupportedVersion)
    );
    assert_eq!(
        sequence_from_str(r#"{ "version": 1.5, "prompts": [] }"#),
        Err(LoadError::UnsupportedVersion)
    );
    assert_eq!(
        sequence_from_str(r#"{ "version": "1", "prompts": [] }"#),
        Err(LoadError::UnsupportedVersion)
    );
    assert_eq!(
        sequence_from_str(r#"{ "version": null, "prompts": [] }"#),
        Err(LoadError::UnsupportedVersion)
    );
    let repeated = Document::Record(vec![
        Member { key: "version".to_string(), value: Document::Integer(1) },
        Member { key: "version".to_string(), value: Document::Integer(1) },
        Member { key: "prompts".to_string(), value: Document::List(vec![]) },
    ]);
    assert_eq!(PromptSequence::from_document(&repeated), Err(LoadError::UnsupportedVersion));
}

#[test]
fn entries_of_unknown_shape_are_refused() {
    let good = r#"{ "prompt-filter": {}, "reply": { "action": "allow" } }"#;
    let bad_entries = [
        r#"null"#,
        r#"[]"#,
        r#"{}"#,
        r#"{ "prompt-filter": {} }"#,
        r#"{ "reply": { "action": "allow" } }"#,
        r#"{ "prompt-filter": null, "reply": { "action": "allow" } }"#,
        r#"{ "prompt-filter": {}, "reply": {} }"#,
        r#"{ "prompt-filter": {}, "reply": { "action": "maybe" } }"#,
        r#"{ "prompt-filter": {}, "reply": { "action": 1 } }"#,
        r#"{ "prompt-filter": { "snap": 1 }, "reply": { "action": "allow" } }"#,
        r#"{ "prompt-filter": { "interface": ["home"] }, "reply": { "action": "allow" } }"#,
        r#"{ "prompt-filter": { "constraints": "home" }, "reply": { "action": "allow" } }"#,
        r#"{ "prompt-filter": { "constraints": { "path": 1 } }, "reply": { "action": "allow" } }"#,
        r#"{ "prompt-filter": { "constraints": { "permissions": "read" } }, "reply": { "action": "allow" } }"#,
        r#"{ "prompt-filter": { "constraints": { "permissions": ["read", 1] } }, "reply": { "action": "allow" } }"#,
        r#"{ "prompt-filter": { "constraints": { "available-permissions": [null] } }, "reply": { "action": "allow" } }"#,
    ];
    for bad in bad_entries {
        let first = format!(r#"{{ "version": 1, "prompts": [ {bad}, {good} ] }}"#);
        assert_eq!(sequence_from_str(&first), Err(LoadError::UnknownShape(0)), "{bad}");
        let last = format!(r#"{{ "version": 1, "prompts": [ {good}, {good}, {bad}, {bad} ] }}"#);
        assert_eq!(sequence_from_str(&last), Err(LoadError::UnknownShape(2)), "{bad}");
    }
}

#[test]
fn errors_are_reported_in_a_fixed_order() {
    assert_eq!(
        sequence_from_str(r#"{ "version": 300, "prompts": [ null ] }"#),
        Err(LoadError::UnsupportedVersion)
    );
    assert_eq!(sequence_from_str(r#"{ "version": 300 }"#), Err(LoadError::UnsupportedVersion));
    assert_eq!(
        sequence_from_str(r#"{ "version": 1, "prompts": [ null ] }"#),
        Err(LoadError::UnknownShape(0))
    );
}

#[test]
fn repeated_attributes_are_refused() {
    let twice = Document::Record(vec![
        Member { key: "snap".to_string(), value: Document::Text("a".to_string()) },
        Member { key: "snap".to_string(), value: Document::Text("a".to_string()) },
    ]);
    assert_eq!(PromptFilter::<HomeInterface>::from_document(&twice), None);

    let twice_null = Document::Record(vec![
        Member { key: "constraints".to_string(), value: Document::Null },
        Member { key: "interface".to_string(), value: Document::Text("home".to_string()) },
        Member { key: "constraints".to_string(), value: Document::Null },
    ]);
    assert_eq!(PromptFilter::<HomeInterface>::from_document(&twice_null), None);

    let unknown_twice = Document::Record(vec![
        Member { key: "note".to_string(), value: Document::Null },
        Member { key: "snap".to_string(), value: Document::Text("a".to_string()) },
        Member { key: "note".to_string(), value: Document::Bool(true) },
    ]);
    let mut expected: PromptFilter<HomeInterface> = PromptFilter::default();
    expected.with_snap("a");
    assert_eq!(PromptFilter::<HomeInterface>::from_document(&unknown_twice), Some(expected));

    let path_twice = Document::Record(vec![
        Member { key: "path".to_string(), value: Document::Text("/a".to_string()) },
        Member { key: "path".to_string(), value: Document::Text("/b".to_string()) },
    ]);
    assert_eq!(HomeConstraintsFilter::from_document(&path_twice), None);
}

#[test]
fn filters_that_are_not_records_are_refused() {
    for text in [r#"null"#, r#"[]"#, r#""home""#, r#"1"#, r#"true"#] {
        assert_eq!(filter_from_str(text), None, "{text}");
        assert_eq!(HomeConstraintsFilter::from_document(&parse(text)), None, "{text}");
        assert_eq!(PromptReply::<HomeInterface>::from_document(&parse(text)), None, "{text}");
        assert_eq!(PromptCase::<HomeInterface>::from_document(&parse(text)), None, "{text}");
    }
}
