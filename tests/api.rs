use chat_graph::db::database::{DatabaseAction, MessageAction};
use chat_graph::entity::{message, user};
use chat_graph::graphql::id::{parse_id, IdError};
use chat_graph::graphql::schema::{
    handle_database_action, key_of, message_object, message_result, messages_result,
    time_range_action, user_result, MutationResponse,
};
use chat_graph::time::Timestamp;
use std::num::IntErrorKind;

fn std_kind(s: &str) -> Result<i32, IdError> {
    s.parse::<i32>().map_err(|e| match e.kind() {
        IntErrorKind::Empty => IdError::Empty,
        IntErrorKind::InvalidDigit => IdError::InvalidDigit,
        IntErrorKind::PosOverflow => IdError::PosOverflow,
        IntErrorKind::NegOverflow => IdError::NegOverflow,
        _ => panic!("unexpected kind"),
    })
}

#[test]
fn parse_id_reads_decimal_keys() {
    assert_eq!(parse_id("2"), Ok(2));
    assert_eq!(parse_id("+5"), Ok(5));
    assert_eq!(parse_id("-17"), Ok(-17));
    assert_eq!(parse_id("0007"), Ok(7));
    assert_eq!(parse_id("2147483647"), Ok(i32::MAX));
    assert_eq!(parse_id("-2147483648"), Ok(i32::MIN));
}

#[test]
fn parse_id_errors() {
    assert_eq!(parse_id(""), Err(IdError::Empty));
    assert_eq!(parse_id("-"), Err(IdError::InvalidDigit));
    assert_eq!(parse_id("+"), Err(IdError::InvalidDigit));
    assert_eq!(parse_id("12a"), Err(IdError::InvalidDigit));
    assert_eq!(parse_id(" 1"), Err(IdError::InvalidDigit));
    assert_eq!(parse_id("2147483648"), Err(IdError::PosOverflow));
    assert_eq!(parse_id("-2147483649"), Err(IdError::NegOverflow));
    assert_eq!(parse_id("99999999999x"), Err(IdError::PosOverflow));
}

#[test]
fn parse_id_agrees_with_std() {
    let cases = [
        "", "0", "-0", "+0", "42", "-42", "+", "-", "--1", "+-1", "1_000", "٣", "1e3",
        "2147483647", "2147483648", "-2147483648", "-2147483649", "99999999999x", "x99999999999",
        "000000000000000000001", "12 ", "9".repeat(30).leak(),
    ];
    for s in cases {
        assert_eq!(parse_id(s), std_kind(s), "input {:?}", s);
    }
}

#[test]
fn key_of_messages_match_std() {
    for s in ["", "abc", "99999999999", "-99999999999"] {
        let expected = s.parse::<i32>().unwrap_err().to_string();
        assert_eq!(key_of(s), Err(expected));
    }
    assert_eq!(key_of("99999"), Ok(99999));
}

#[test]
fn message_object_shows_keys_as_text() {
    let m = message::Model {
        id: 12,
        user_id: -3,
        content: "Hi, there!".to_string(),
        created_at: Timestamp { secs: 0, nanos: 0 },
        updated_at: Timestamp { secs: 1431648000, nanos: 0 },
        parent_id: Some(4),
    };
    let shown = message_object(m);
    assert_eq!(shown.id(), "12");
    assert_eq!(shown.user_id(), "-3");
    assert_eq!(shown.content(), "Hi, there!");
    assert_eq!(shown.parent_id(), Some(4));
    assert_eq!(shown.created_at(), Some("1970-01-01T00:00:00+00:00".to_string()));
    assert_eq!(shown.updated_at(), Some("2015-05-15T00:00:00+00:00".to_string()));
}

#[test]
fn created_at_out_of_range_is_none() {
    let m = message::Model {
        id: 1,
        user_id: 1,
        content: String::new(),
        created_at: Timestamp { secs: i64::MAX, nanos: 0 },
        updated_at: Timestamp { secs: 0, nanos: 2_000_000_000 },
        parent_id: None,
    };
    let shown = message_object(m);
    assert_eq!(shown.created_at(), None);
    assert_eq!(shown.updated_at(), None);
}

#[test]
fn user_result_cases() {
    let found = user_result(DatabaseAction::User(user::Model { id: 2, name: "Bob".to_string() }))
        .unwrap();
    assert_eq!(found.id(), "2");
    assert_eq!(found.name(), "Bob");
    assert_eq!(
        user_result(DatabaseAction::Failure("User not found".to_string())),
        Err("User not found".to_string())
    );
    assert_eq!(
        user_result(DatabaseAction::Success),
        Err("Unexpected database action".to_string())
    );
}

#[test]
fn message_result_cases() {
    assert_eq!(
        message_result(DatabaseAction::Failure("Message not found".to_string())),
        Err("Message not found".to_string())
    );
    assert_eq!(message_result(DatabaseAction::Success), Ok(None));
    let m = message::Model {
        id: 1,
        user_id: 1,
        content: "THIS IS AN UPDATED MESSAGE".to_string(),
        created_at: Timestamp { secs: 1, nanos: 0 },
        updated_at: Timestamp { secs: 2, nanos: 0 },
        parent_id: None,
    };
    let shown = message_result(DatabaseAction::Message(m)).unwrap().unwrap();
    assert_eq!(shown.id(), "1");
    assert_eq!(shown.content(), "THIS IS AN UPDATED MESSAGE");
}

#[test]
fn messages_result_cases() {
    assert_eq!(messages_result(DatabaseAction::Messages(vec![])), Ok(vec![]));
    assert_eq!(
        messages_result(DatabaseAction::Success),
        Err("Failed to fetch messages".to_string())
    );
}

#[test]
fn mutation_responses() {
    let ok = |m: &str| Ok(MutationResponse { success: true, message: m.to_string() });
    assert_eq!(handle_database_action(DatabaseAction::Success), ok("Action succeeded"));
    assert_eq!(
        handle_database_action(DatabaseAction::User(user::Model { id: 1, name: "A".to_string() })),
        ok("User action succeeded")
    );
    assert_eq!(
        handle_database_action(DatabaseAction::Messages(vec![])),
        ok("Messages action succeeded")
    );
    assert_eq!(
        handle_database_action(DatabaseAction::Failure("User not found".to_string())),
        Err("User not found".to_string())
    );
}

#[test]
fn time_range_action_reads_all_three() {
    let r = time_range_action("1", "2024-01-02T03:04:05+02:00", "2024-01-03T00:00:00.5Z");
    assert_eq!(
        r,
        Ok(MessageAction::GetInTimeRangeForUser(
            1,
            Timestamp { secs: 1704157445, nanos: 0 },
            Timestamp { secs: 1704240000, nanos: 500_000_000 },
        ))
    );
}

#[test]
fn time_range_action_errors() {
    let bad_key = time_range_action("x", "nonsense", "nonsense");
    assert_eq!(bad_key, Err("invalid digit found in string".to_string()));
    let bad_start = time_range_action("1", "yesterday", "2024-01-03T00:00:00Z").unwrap_err();
    assert!(bad_start.starts_with("Invalid start datetime: "), "{}", bad_start);
    assert!(bad_start.len() > "Invalid start datetime: ".len());
    let bad_end = time_range_action("1", "2024-01-03T00:00:00Z", "2024-13-03T00:00:00Z").unwrap_err();
    assert!(bad_end.starts_with("Invalid end datetime: "), "{}", bad_end);
}
