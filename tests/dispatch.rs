use chat_graph::db::database::{
    Answer, DatabaseAction, MessageAction, Statement, Step, UserAction,
};
use chat_graph::entity::{message, user};
use chat_graph::graphql::schema::{handle_database_action, messages_result, user_result};
use chat_graph::time::Timestamp;

fn stamp(secs: i64) -> Timestamp {
    Timestamp { secs, nanos: 0 }
}

fn row(id: i32, user_id: i32, content: &str) -> message::Model {
    message::Model {
        id,
        user_id,
        content: content.to_string(),
        created_at: stamp(1_700_000_000),
        updated_at: stamp(1_700_000_000),
        parent_id: None,
    }
}

fn bob() -> user::Model {
    user::Model { id: 2, name: "Bob".to_string() }
}

#[test]
fn create_user_inserts_then_succeeds() {
    let action = UserAction::Create("Alice".to_string());
    assert_eq!(action.first_statement(), Statement::InsertUser("Alice".to_string()));
    assert!(action.expects(&Answer::Written));
    assert!(!action.expects(&Answer::Removed(1)));
    assert_eq!(action.next(Answer::Written), Step::Finish(DatabaseAction::Success));
}

#[test]
fn test_get_user_found() {
    let action = UserAction::Get(2);
    assert_eq!(action.first_statement(), Statement::FindUser(2));
    let step = action.next(Answer::FoundUser(Some(bob())));
    assert_eq!(step, Step::Finish(DatabaseAction::User(bob())));
    if let Step::Finish(result) = step {
        let shown = user_result(result).unwrap();
        assert_eq!(shown.id(), "2");
        assert_eq!(shown.name(), "Bob");
    }
}

#[test]
fn test_get_user_not_found() {
    let action = UserAction::Get(99999);
    assert_eq!(action.first_statement(), Statement::FindUser(99999));
    let step = action.next(Answer::FoundUser(None));
    assert_eq!(step, Step::Finish(DatabaseAction::Failure("User not found".to_string())));
    if let Step::Finish(result) = step {
        assert_eq!(user_result(result), Err("User not found".to_string()));
    }
}

#[test]
fn mod_test_update_user() {
    let action = UserAction::Update(2, "Bobby".to_string());
    assert_eq!(action.first_statement(), Statement::FindUser(2));
    assert_eq!(
        action.next(Answer::FoundUser(Some(bob()))),
        Step::Run(Statement::RenameUser(2, "Bobby".to_string()))
    );
    let done = action.next(Answer::Written);
    assert_eq!(done, Step::Finish(DatabaseAction::Success));
    if let Step::Finish(result) = done {
        let resp = handle_database_action(result).unwrap();
        assert!(resp.success);
        assert_eq!(resp.message, "Action succeeded");
    }
}

#[test]
fn update_missing_user_is_not_found() {
    let action = UserAction::Update(7, "Zed".to_string());
    assert_eq!(
        action.next(Answer::FoundUser(None)),
        Step::Finish(DatabaseAction::Failure("User not found".to_string()))
    );
}

#[test]
fn mod_test_delete_user() {
    let action = UserAction::Delete(2);
    assert_eq!(action.first_statement(), Statement::DeleteUser(2));
    assert_eq!(action.next(Answer::Removed(1)), Step::Finish(DatabaseAction::Success));
    assert_eq!(
        action.next(Answer::Removed(0)),
        Step::Finish(DatabaseAction::Failure("User not found".to_string()))
    );
}

#[test]
fn create_message_inserts_then_succeeds() {
    let action = MessageAction::Create(1, "Hello, world!".to_string());
    assert_eq!(
        action.first_statement(),
        Statement::InsertMessage(1, "Hello, world!".to_string())
    );
    assert_eq!(action.next(Answer::Written), Step::Finish(DatabaseAction::Success));
}

#[test]
fn get_message_found_and_not_found() {
    let action = MessageAction::Get(1);
    assert_eq!(action.first_statement(), Statement::FindMessage(1));
    assert_eq!(
        action.next(Answer::FoundMessage(Some(row(1, 1, "Hello, world!")))),
        Step::Finish(DatabaseAction::Message(row(1, 1, "Hello, world!")))
    );
    assert_eq!(
        action.next(Answer::FoundMessage(None)),
        Step::Finish(DatabaseAction::Failure("Message not found".to_string()))
    );
}

#[test]
fn mod_test_update_message() {
    let action = MessageAction::Update(1, "THIS IS AN UPDATED MESSAGE".to_string());
    assert_eq!(action.first_statement(), Statement::FindMessage(1));
    assert_eq!(
        action.next(Answer::FoundMessage(Some(row(1, 1, "Hello, world!")))),
        Step::Run(Statement::RewriteMessage(1, "THIS IS AN UPDATED MESSAGE".to_string()))
    );
    assert_eq!(action.next(Answer::Written), Step::Finish(DatabaseAction::Success));
}

#[test]
fn update_missing_message_is_not_found() {
    let action = MessageAction::Update(99999, "x".to_string());
    assert_eq!(
        action.next(Answer::FoundMessage(None)),
        Step::Finish(DatabaseAction::Failure("Message not found".to_string()))
    );
}

#[test]
fn mod_test_delete_message() {
    let action = MessageAction::Delete(1);
    assert_eq!(action.first_statement(), Statement::DeleteMessage(1));
    assert_eq!(action.next(Answer::Removed(1)), Step::Finish(DatabaseAction::Success));
    assert_eq!(
        action.next(Answer::Removed(0)),
        Step::Finish(DatabaseAction::Failure("Message not found".to_string()))
    );
}

#[test]
fn test_get_all_message() {
    let action = MessageAction::GetAllForUser(1);
    assert_eq!(action.first_statement(), Statement::MessagesOfUser(1));
    let listed = vec![row(1, 1, "Hello, world!"), row(2, 1, "I am Alice")];
    let step = action.next(Answer::Listed(listed.clone()));
    assert_eq!(step, Step::Finish(DatabaseAction::Messages(listed)));
    if let Step::Finish(result) = step {
        let shown = messages_result(result).unwrap();
        assert_eq!(shown.len(), 2);
        assert_eq!(shown[0].user_id(), "1");
        assert_eq!(shown[0].content(), "Hello, world!");
        assert_eq!(shown[1].id(), "2");
        assert_eq!(shown[1].content(), "I am Alice");
    }
}

#[test]
fn get_messages_in_time_range() {
    let action = MessageAction::GetInTimeRangeForUser(1, stamp(10), stamp(20));
    assert_eq!(
        action.first_statement(),
        Statement::MessagesOfUserBetween(1, stamp(10), stamp(20))
    );
    assert_eq!(
        action.next(Answer::Listed(vec![])),
        Step::Finish(DatabaseAction::Messages(vec![]))
    );
}

#[test]
fn expected_answers_per_action() {
    assert!(UserAction::Update(1, "a".to_string()).expects(&Answer::FoundUser(None)));
    assert!(UserAction::Update(1, "a".to_string()).expects(&Answer::Written));
    assert!(!UserAction::Get(1).expects(&Answer::Written));
    assert!(MessageAction::GetAllForUser(1).expects(&Answer::Listed(vec![])));
    assert!(!MessageAction::Delete(1).expects(&Answer::FoundMessage(None)));
}

#[test]
fn timestamps_order_and_ranges() {
    let a = Timestamp { secs: 5, nanos: 10 };
    let b = Timestamp { secs: 5, nanos: 20 };
    let c = Timestamp { secs: 6, nanos: 0 };
    assert!(a.le(&b));
    assert!(!b.le(&a));
    assert!(b.le(&c));
    assert!(a.le(&a));
    assert!(b.is_within(&a, &c));
    assert!(a.is_within(&a, &a));
    assert!(!c.is_within(&a, &b));
}
